//! The count behind the rate limit: a map from budget and address to the moments of
//! that address's recent attempts, kept by one process. Moments and waits are
//! nanoseconds on one clock that the caller reads.

use vstd::prelude::*;
use crate::limiter_history::{
    allowed_moments, answer, clock_runs_forward, law_the_limit_over_a_history, run, Attempt,
};
use crate::gate::{
    budget_for, budget_of, client_address, counted_address, AccountDoors, Budget, ClientAddress,
    GateConfig, Limit, NANOS_PER_SECOND,
};

verus! {

/// Past this many remembered budget-and-address pairs, pairs whose attempts
/// have all left their window are forgotten before the next count, so memory
/// is bounded by traffic within one window rather than since the start.
pub const SWEEP_ABOVE: usize = 4096;

/// Whether an attempt may proceed, or how long to wait before the next one
/// can succeed, in nanoseconds.
#[derive(Clone, Copy, Debug, PartialEq, Eq, Structural)]
pub enum Decision {
    Allowed,
    Refused(u128),
}

/// How long ago `then` was at `now`; a moment after `now` was no time ago.
pub open spec fn elapsed(now: u128, then: u128) -> int {
    if now >= then {
        now - then
    } else {
        0
    }
}

/// The window of a limit in nanoseconds.
pub open spec fn window_nanos(limit: Limit) -> int {
    limit.window_secs as int * NANOS_PER_SECOND as int
}

/// The moments with those at the front that have left the window taken off,
/// as far as the first one still inside it.
pub open spec fn drop_expired(moments: Seq<u128>, now: u128, window: int) -> Seq<u128>
    decreases moments.len(),
{
    if moments.len() > 0 && elapsed(now, moments[0]) >= window {
        drop_expired(moments.drop_first(), now, window)
    } else {
        moments
    }
}

/// Every moment still inside the window, wherever it stands.
pub open spec fn still_counted(moments: Seq<u128>, now: u128, window: int) -> Seq<u128> {
    moments.filter(|t: u128| elapsed(now, t) < window)
}

/// The remembered attempts with every moment outside its budget's window
/// forgotten, and every pair left with no moment forgotten too.
pub open spec fn swept(
    attempts: Map<(Budget, ClientAddress), Seq<u128>>,
    config: GateConfig,
    now: u128,
) -> Map<(Budget, ClientAddress), Seq<u128>> {
    Map::new(
        |k: (Budget, ClientAddress)|
            attempts.dom().contains(k) && still_counted(
                attempts[k],
                now,
                window_nanos(config.spec_limit(k.0)),
            ).len() > 0,
        |k: (Budget, ClientAddress)|
            still_counted(attempts[k], now, window_nanos(config.spec_limit(k.0))),
    )
}

/// What is left of the window after the oldest counted attempt, never less
/// than one second.
pub open spec fn refusal_wait(window: int, since_oldest: int) -> int {
    let left = if window > since_oldest {
        window - since_oldest
    } else {
        0
    };
    if left < NANOS_PER_SECOND {
        NANOS_PER_SECOND as int
    } else {
        left
    }
}

/// One attempt at `now`: the remembered attempts afterwards, and the answer.
/// An attempt that is refused is not recorded, so a client that keeps
/// knocking does not push its own release further away.
pub open spec fn check_step(
    attempts: Map<(Budget, ClientAddress), Seq<u128>>,
    config: GateConfig,
    budget: Budget,
    address: ClientAddress,
    now: u128,
) -> (Map<(Budget, ClientAddress), Seq<u128>>, Decision) {
    let before = if attempts.dom().len() > SWEEP_ABOVE {
        swept(attempts, config, now)
    } else {
        attempts
    };
    let limit = config.spec_limit(budget);
    let key = (budget, address);
    let prior = if before.dom().contains(key) {
        before[key]
    } else {
        Seq::<u128>::empty()
    };
    let live = drop_expired(prior, now, window_nanos(limit));
    if live.len() >= limit.attempts {
        let oldest = if live.len() > 0 {
            live[0]
        } else {
            now
        };
        (
            before.insert(key, live),
            Decision::Refused(refusal_wait(window_nanos(limit), elapsed(now, oldest)) as u128),
        )
    } else {
        (before.insert(key, live.push(now)), Decision::Allowed)
    }
}


proof fn lemma_drop_expired_keeps(s: Seq<u128>, now: u128, window: int, t: u128)
    requires
        drop_expired(s, now, window).contains(t),
    ensures
        s.contains(t),
    decreases s.len(),
{
    if s.len() > 0 && elapsed(now, s[0]) >= window {
        lemma_drop_expired_keeps(s.drop_first(), now, window, t);
        let i = choose|i: int| 0 <= i < s.drop_first().len() && s.drop_first()[i] == t;
        assert(s[i + 1] == t);
    }
}

proof fn lemma_drop_expired_all(s: Seq<u128>, now: u128, window: int)
    requires
        forall|i: int| 0 <= i < s.len() ==> elapsed(now, #[trigger] s[i]) >= window,
    ensures
        drop_expired(s, now, window).len() == 0,
    decreases s.len(),
{
    if s.len() > 0 {
        lemma_drop_expired_all(s.drop_first(), now, window);
    }
}

proof fn lemma_still_counted_keeps(s: Seq<u128>, now: u128, window: int, t: u128)
    requires
        still_counted(s, now, window).contains(t),
    ensures
        s.contains(t),
        elapsed(now, t) < window,
    decreases s.len(),
{
    let p = |x: u128| elapsed(now, x) < window;
    reveal(Seq::filter);
    if s.len() > 0 {
        let sub = s.drop_last().filter(p);
        let i = choose|i: int|
            0 <= i < s.filter(p).len() && s.filter(p)[i] == t;
        if p(s.last()) && i == sub.len() {
            assert(s[s.len() - 1] == t);
        } else {
            assert(sub[i] == t);
            assert(sub.contains(t));
            lemma_still_counted_keeps(s.drop_last(), now, window, t);
            let j = choose|j: int| 0 <= j < s.drop_last().len() && s.drop_last()[j] == t;
            assert(s[j] == t);
        }
    }
}

proof fn lemma_still_counted_none(s: Seq<u128>, now: u128, window: int)
    requires
        forall|i: int| 0 <= i < s.len() ==> elapsed(now, #[trigger] s[i]) >= window,
    ensures
        still_counted(s, now, window).len() == 0,
{
    if still_counted(s, now, window).len() > 0 {
        let t = still_counted(s, now, window)[0];
        assert(still_counted(s, now, window).contains(t));
        lemma_still_counted_keeps(s, now, window, t);
    }
}

/// A refused attempt is not counted: after it, every moment remembered for any
/// budget and address was remembered before it, so a client that keeps
/// knocking while refused does not push its own release further away.
pub proof fn law_refused_attempt_is_not_counted(
    attempts: Map<(Budget, ClientAddress), Seq<u128>>,
    config: GateConfig,
    budget: Budget,
    address: ClientAddress,
    now: u128,
    key: (Budget, ClientAddress),
    moment: u128,
)
    requires
        check_step(attempts, config, budget, address, now).1 is Refused,
        check_step(attempts, config, budget, address, now).0.dom().contains(key),
        check_step(attempts, config, budget, address, now).0[key].contains(moment),
    ensures
        attempts.dom().contains(key),
        attempts[key].contains(moment),
{
    let before = if attempts.dom().len() > SWEEP_ABOVE {
        swept(attempts, config, now)
    } else {
        attempts
    };
    let limit = config.spec_limit(budget);
    let k = (budget, address);
    let prior = if before.dom().contains(k) {
        before[k]
    } else {
        Seq::<u128>::empty()
    };
    let after = before.insert(k, drop_expired(prior, now, window_nanos(limit)));
    assert(after[key].contains(moment));
    let held = if key == k {
        lemma_drop_expired_keeps(prior, now, window_nanos(limit), moment);
        prior
    } else {
        before[key]
    };
    assert(before.dom().contains(key) && before[key] == held);
    if attempts.dom().len() > SWEEP_ABOVE {
        lemma_still_counted_keeps(
            attempts[key],
            now,
            window_nanos(config.spec_limit(key.0)),
            moment,
        );
    }
}

proof fn lemma_drop_expired_front(s: Seq<u128>, now: u128, window: int)
    ensures
        drop_expired(s, now, window).len() > 0 ==> {
            &&& s.contains(drop_expired(s, now, window)[0])
            &&& elapsed(now, drop_expired(s, now, window)[0]) < window
        },
    decreases s.len(),
{
    if s.len() > 0 && elapsed(now, s[0]) >= window {
        lemma_drop_expired_front(s.drop_first(), now, window);
        let r = drop_expired(s, now, window);
        if r.len() > 0 {
            let i = choose|i: int| 0 <= i < s.drop_first().len() && s.drop_first()[i] == r[0];
            assert(s[i + 1] == r[0]);
        }
    } else if s.len() > 0 {
        assert(s[0] == drop_expired(s, now, window)[0]);
    }
}

/// Moments in the order they happened: never an earlier one after a later.
pub open spec fn in_order(s: Seq<u128>) -> bool {
    forall|i: int, j: int| 0 <= i < j < s.len() ==> #[trigger] s[i] <= #[trigger] s[j]
}

proof fn lemma_drop_expired_in_order(s: Seq<u128>, now: u128, window: int)
    requires
        in_order(s),
    ensures
        in_order(drop_expired(s, now, window)),
    decreases s.len(),
{
    if s.len() > 0 && elapsed(now, s[0]) >= window {
        let d = s.drop_first();
        assert forall|i: int, j: int| 0 <= i < j < d.len() implies #[trigger] d[i] <= #[trigger] d[j] by {
            assert(d[i] == s[i + 1] && d[j] == s[j + 1]);
        }
        lemma_drop_expired_in_order(d, now, window);
    }
}

proof fn lemma_still_counted_in_order(s: Seq<u128>, now: u128, window: int)
    requires
        in_order(s),
    ensures
        in_order(still_counted(s, now, window)),
    decreases s.len(),
{
    let p = |x: u128| elapsed(now, x) < window;
    reveal(Seq::filter);
    if s.len() > 0 {
        let d = s.drop_last();
        assert forall|i: int, j: int| 0 <= i < j < d.len() implies #[trigger] d[i] <= #[trigger] d[j] by {
            assert(d[i] == s[i] && d[j] == s[j]);
        }
        lemma_still_counted_in_order(d, now, window);
        let f = d.filter(p);
        if p(s.last()) {
            assert forall|i: int| 0 <= i < f.len() implies #[trigger] f[i] <= s.last() by {
                assert(f.contains(f[i]));
                lemma_still_counted_keeps(d, now, window, f[i]);
                let k = choose|k: int| 0 <= k < d.len() && d[k] == f[i];
                assert(s[k] == f[i] && s[s.len() - 1] == s.last());
            }
            let g = f.push(s.last());
            assert forall|i: int, j: int| 0 <= i < j < g.len() implies #[trigger] g[i] <= #[trigger] g[j] by {
                if j == f.len() {
                    assert(g[i] == f[i]);
                } else {
                    assert(g[i] == f[i] && g[j] == f[j]);
                }
            }
        }
    }
}

/// A refused client that knocks again before its wait is over is refused
/// for what is left of that wait: the second wait is the first less the time
/// between the two knocks. Knocking does not extend the wait. The moments
/// remembered for the client are in the order they happened, as a clock
/// that never runs back records them.
pub proof fn law_knocking_does_not_extend_the_wait(
    attempts: Map<(Budget, ClientAddress), Seq<u128>>,
    config: GateConfig,
    budget: Budget,
    address: ClientAddress,
    first: u128,
    second: u128,
    wait: u128,
)
    requires
        config.spec_limit(budget).attempts > 0,
        attempts.dom().contains((budget, address)) ==> in_order(attempts[(budget, address)])
            && forall|i: int|
            0 <= i < attempts[(budget, address)].len() ==> #[trigger] attempts[(
                budget,
                address,
            )][i] <= first,
        check_step(attempts, config, budget, address, first).1 == Decision::Refused(wait),
        first <= second,
        second - first + NANOS_PER_SECOND <= wait,
    ensures
        check_step(
            check_step(attempts, config, budget, address, first).0,
            config,
            budget,
            address,
            second,
        ).1 == Decision::Refused((wait - (second - first)) as u128),
{
    let k = (budget, address);
    let limit = config.spec_limit(budget);
    let w = window_nanos(limit);
    let before = if attempts.dom().len() > SWEEP_ABOVE {
        swept(attempts, config, first)
    } else {
        attempts
    };
    let prior = if before.dom().contains(k) {
        before[k]
    } else {
        Seq::<u128>::empty()
    };
    if attempts.dom().contains(k) {
        if attempts.dom().len() > SWEEP_ABOVE {
            lemma_still_counted_in_order(attempts[k], first, w);
        }
    }
    assert(in_order(prior));
    assert forall|i: int| 0 <= i < prior.len() implies #[trigger] prior[i] <= first by {
        if attempts.dom().len() > SWEEP_ABOVE {
            assert(prior.contains(prior[i]));
            lemma_still_counted_keeps(attempts[k], first, w, prior[i]);
        }
    }
    let live = drop_expired(prior, first, w);
    lemma_drop_expired_front(prior, first, w);
    lemma_drop_expired_in_order(prior, first, w);
    let m1 = before.insert(k, live);
    assert(check_step(attempts, config, budget, address, first).0 == m1);
    assert(live.len() >= limit.attempts);
    let f = live[0];
    assert(prior.contains(f));
    assert forall|i: int| 0 <= i < live.len() implies f <= #[trigger] live[i] && live[i] <= first by {
        if i > 0 {
            assert(live[0] <= live[i]);
        }
        assert(live.contains(live[i]));
        lemma_drop_expired_keeps(prior, first, w, live[i]);
    }
    assert(elapsed(second, f) < w);
    assert(forall|i: int| 0 <= i < live.len() ==> elapsed(second, #[trigger] live[i]) < w);
    lemma_still_counted_all(live, second, w);
    let before2 = if m1.dom().len() > SWEEP_ABOVE {
        swept(m1, config, second)
    } else {
        m1
    };
    assert(before2.dom().contains(k) && before2[k] == live);
    assert(drop_expired(live, second, w) == live);
}

/// A refused client is told to wait at least one second and never longer
/// than its budget's window, or one second where the window is shorter.
pub proof fn law_refusal_wait_is_bounded(
    attempts: Map<(Budget, ClientAddress), Seq<u128>>,
    config: GateConfig,
    budget: Budget,
    address: ClientAddress,
    now: u128,
)
    ensures
        check_step(attempts, config, budget, address, now).1 matches Decision::Refused(wait) ==> {
            &&& wait >= NANOS_PER_SECOND
            &&& wait <= window_nanos(config.spec_limit(budget)) || wait == NANOS_PER_SECOND
        },
{
}

/// Budgets and addresses are counted apart: below the sweep threshold, an
/// attempt changes what is remembered for its own budget and address only.
pub proof fn law_pairs_are_counted_apart(
    attempts: Map<(Budget, ClientAddress), Seq<u128>>,
    config: GateConfig,
    budget: Budget,
    address: ClientAddress,
    now: u128,
)
    requires
        attempts.dom().len() <= SWEEP_ABOVE,
    ensures
        check_step(attempts, config, budget, address, now).0.remove((budget, address))
            == attempts.remove((budget, address)),
{
    assert(check_step(attempts, config, budget, address, now).0.remove((budget, address))
        =~= attempts.remove((budget, address)));
}

/// The budget releases after the window: an address all of whose remembered
/// attempts on a budget are at least a window old is allowed.
pub proof fn law_released_after_the_window(
    attempts: Map<(Budget, ClientAddress), Seq<u128>>,
    config: GateConfig,
    budget: Budget,
    address: ClientAddress,
    now: u128,
)
    requires
        config.spec_limit(budget).attempts > 0,
        attempts.dom().contains((budget, address)) ==> forall|i: int|
            0 <= i < attempts[(budget, address)].len() ==> elapsed(
                now,
                #[trigger] attempts[(budget, address)][i],
            ) >= window_nanos(config.spec_limit(budget)),
    ensures
        check_step(attempts, config, budget, address, now).1 == Decision::Allowed,
{
    let w = window_nanos(config.spec_limit(budget));
    let k = (budget, address);
    if attempts.dom().contains(k) {
        lemma_drop_expired_all(attempts[k], now, w);
        lemma_still_counted_none(attempts[k], now, w);
    }
}

/// `n` attempts of one address on one budget, all at the moment `now`.
pub open spec fn knock_repeatedly(
    attempts: Map<(Budget, ClientAddress), Seq<u128>>,
    config: GateConfig,
    budget: Budget,
    address: ClientAddress,
    now: u128,
    n: nat,
) -> (Map<(Budget, ClientAddress), Seq<u128>>, Seq<Decision>)
    decreases n,
{
    if n == 0 {
        (attempts, Seq::empty())
    } else {
        let (m, ds) = knock_repeatedly(attempts, config, budget, address, now, (n - 1) as nat);
        let (m2, d) = check_step(m, config, budget, address, now);
        (m2, ds.push(d))
    }
}

proof fn lemma_still_counted_all(s: Seq<u128>, now: u128, window: int)
    requires
        forall|i: int| 0 <= i < s.len() ==> elapsed(now, #[trigger] s[i]) < window,
    ensures
        still_counted(s, now, window) == s,
    decreases s.len(),
{
    let p = |x: u128| elapsed(now, x) < window;
    reveal(Seq::filter);
    if s.len() > 0 {
        lemma_still_counted_all(s.drop_last(), now, window);
        assert(p(s.last()));
        assert(s.drop_last().push(s.last()) =~= s);
    } else {
        assert(s.filter(p) =~= s);
    }
}

proof fn lemma_knock_repeatedly(
    attempts: Map<(Budget, ClientAddress), Seq<u128>>,
    config: GateConfig,
    budget: Budget,
    address: ClientAddress,
    now: u128,
    n: nat,
)
    requires
        !attempts.dom().contains((budget, address)),
        config.spec_limit(budget).window_secs > 0,
        n <= config.spec_limit(budget).attempts,
    ensures
        ({
            let (m, ds) = knock_repeatedly(attempts, config, budget, address, now, n);
            &&& n > 0 ==> m.dom().contains((budget, address)) && m[(budget, address)] == Seq::new(
                n,
                |i: int| now,
            )
            &&& ds.len() == n
            &&& forall|i: int| 0 <= i < n ==> ds[i] == Decision::Allowed
        }),
    decreases n,
{
    if n > 0 {
        let k = (budget, address);
        lemma_knock_repeatedly(attempts, config, budget, address, now, (n - 1) as nat);
        let (m, ds) = knock_repeatedly(attempts, config, budget, address, now, (n - 1) as nat);
        let w = window_nanos(config.spec_limit(budget));
        let before = if m.dom().len() > SWEEP_ABOVE {
            swept(m, config, now)
        } else {
            m
        };
        let copies = Seq::new((n - 1) as nat, |i: int| now);
        let prior = if before.dom().contains(k) {
            before[k]
        } else {
            Seq::<u128>::empty()
        };
        if n > 1 {
            assert(m.dom().contains(k) && m[k] == copies);
            lemma_still_counted_all(copies, now, w);
            assert(prior == copies);
        } else {
            assert(!before.dom().contains(k));
            assert(prior =~= copies);
        }
        assert(drop_expired(prior, now, w) == prior);
        assert(prior.push(now) =~= Seq::new(n, |i: int| now));
    }
}

/// The budget engages after the configured count: from an address with no
/// remembered attempt, as many attempts as the limit allows at one moment are
/// all allowed, and one more, before the window has passed, is refused for
/// what is left of the window, at least a second.
pub proof fn law_engages_after_the_configured_count(
    attempts: Map<(Budget, ClientAddress), Seq<u128>>,
    config: GateConfig,
    budget: Budget,
    address: ClientAddress,
    start: u128,
    later: u128,
)
    requires
        !attempts.dom().contains((budget, address)),
        config.spec_limit(budget).window_secs > 0,
        config.spec_limit(budget).attempts > 0,
        start <= later < start + window_nanos(config.spec_limit(budget)),
    ensures
        ({
            let n = config.spec_limit(budget).attempts as nat;
            let (m, ds) = knock_repeatedly(attempts, config, budget, address, start, n);
            &&& forall|i: int| 0 <= i < n ==> ds[i] == Decision::Allowed
            &&& check_step(m, config, budget, address, later).1 == Decision::Refused(
                refusal_wait(window_nanos(config.spec_limit(budget)), later - start) as u128,
            )
        }),
{
    let n = config.spec_limit(budget).attempts as nat;
    let k = (budget, address);
    lemma_knock_repeatedly(attempts, config, budget, address, start, n);
    let (m, ds) = knock_repeatedly(attempts, config, budget, address, start, n);
    let w = window_nanos(config.spec_limit(budget));
    let copies = Seq::new(n, |i: int| start);
    assert(m.dom().contains(k) && m[k] == copies);
    assert(forall|i: int| 0 <= i < copies.len() ==> elapsed(later, #[trigger] copies[i]) < w);
    lemma_still_counted_all(copies, later, w);
    let before = if m.dom().len() > SWEEP_ABOVE {
        swept(m, config, later)
    } else {
        m
    };
    assert(before.dom().contains(k) && before[k] == copies);
    assert(drop_expired(copies, later, w) == copies);
}

/// The attempts of one address on one budget.
struct AttemptRecord {
    budget: Budget,
    address: ClientAddress,
    moments: Vec<u128>,
}

spec fn record_key(r: AttemptRecord) -> (Budget, ClientAddress) {
    (r.budget, r.address)
}

spec fn records_map(s: Seq<AttemptRecord>) -> Map<(Budget, ClientAddress), Seq<u128>>
    decreases s.len(),
{
    if s.len() == 0 {
        Map::empty()
    } else {
        records_map(s.drop_last()).insert(record_key(s.last()), s.last().moments@)
    }
}

spec fn keys_unique(s: Seq<AttemptRecord>) -> bool {
    forall|i: int, j: int|
        0 <= i < j < s.len() ==> record_key(#[trigger] s[i]) != record_key(#[trigger] s[j])
}

proof fn lemma_records_absent(s: Seq<AttemptRecord>, k: (Budget, ClientAddress))
    requires
        forall|i: int| 0 <= i < s.len() ==> record_key(#[trigger] s[i]) != k,
    ensures
        !records_map(s).dom().contains(k),
    decreases s.len(),
{
    if s.len() > 0 {
        lemma_records_absent(s.drop_last(), k);
    }
}

proof fn lemma_records_lookup(s: Seq<AttemptRecord>, i: int)
    requires
        keys_unique(s),
        0 <= i < s.len(),
    ensures
        records_map(s).dom().contains(record_key(s[i])),
        records_map(s)[record_key(s[i])] == s[i].moments@,
    decreases s.len(),
{
    if i < s.len() - 1 {
        lemma_records_lookup(s.drop_last(), i);
        assert(record_key(s[i]) != record_key(s[s.len() - 1]));
    }
}

proof fn lemma_records_len(s: Seq<AttemptRecord>)
    requires
        keys_unique(s),
    ensures
        records_map(s).dom().finite(),
        records_map(s).dom().len() == s.len(),
    decreases s.len(),
{
    if s.len() > 0 {
        let p = s.drop_last();
        lemma_records_len(p);
        assert forall|i: int| 0 <= i < p.len() implies record_key(#[trigger] p[i]) != record_key(
            s.last(),
        ) by {
            assert(record_key(s[i]) != record_key(s[s.len() - 1]));
        }
        lemma_records_absent(p, record_key(s.last()));
    }
}

proof fn lemma_records_update(s: Seq<AttemptRecord>, i: int, r: AttemptRecord)
    requires
        keys_unique(s),
        0 <= i < s.len(),
        record_key(r) == record_key(s[i]),
    ensures
        keys_unique(s.update(i, r)),
        records_map(s.update(i, r)) == records_map(s).insert(record_key(r), r.moments@),
    decreases s.len(),
{
    let t = s.update(i, r);
    assert(keys_unique(t)) by {
        assert forall|a: int, b: int| 0 <= a < b < t.len() implies record_key(#[trigger] t[a])
            != record_key(#[trigger] t[b]) by {
            assert(record_key(t[a]) == record_key(s[a]));
            assert(record_key(t[b]) == record_key(s[b]));
        }
    }
    if i == s.len() - 1 {
        assert(t.drop_last() == s.drop_last());
        assert(records_map(t) =~= records_map(s).insert(record_key(r), r.moments@));
    } else {
        assert(t.drop_last() == s.drop_last().update(i, r));
        lemma_records_update(s.drop_last(), i, r);
        assert(record_key(s[i]) != record_key(s[s.len() - 1]));
        assert(records_map(t) =~= records_map(s).insert(record_key(r), r.moments@));
    }
}

proof fn lemma_records_push(s: Seq<AttemptRecord>, r: AttemptRecord)
    requires
        keys_unique(s),
        forall|i: int| 0 <= i < s.len() ==> record_key(#[trigger] s[i]) != record_key(r),
    ensures
        keys_unique(s.push(r)),
        records_map(s.push(r)) == records_map(s).insert(record_key(r), r.moments@),
{
    assert(s.push(r).drop_last() == s);
}


fn elapsed_since(now: u128, then: u128) -> (r: u128)
    ensures
        r == elapsed(now, then),
{
    if now >= then {
        now - then
    } else {
        0
    }
}

/// The moments from the first one still inside the window onwards.
fn without_expired(moments: &Vec<u128>, now: u128, window: u128) -> (r: Vec<u128>)
    ensures
        r@ == drop_expired(moments@, now, window as int),
{
    let mut k: usize = 0;
    assert(moments@.skip(0) == moments@);
    while k < moments.len() && elapsed_since(now, moments[k]) >= window
        invariant
            0 <= k <= moments.len(),
            drop_expired(moments@, now, window as int) == drop_expired(
                moments@.skip(k as int),
                now,
                window as int,
            ),
        decreases moments.len() - k,
    {
        assert(moments@.skip(k as int).drop_first() == moments@.skip(k + 1));
        k += 1;
    }
    let mut out: Vec<u128> = Vec::new();
    let mut i = k;
    while i < moments.len()
        invariant
            k <= i <= moments.len(),
            out@ == moments@.subrange(k as int, i as int),
        decreases moments.len() - i,
    {
        out.push(moments[i]);
        assert(moments@.subrange(k as int, i + 1) == moments@.subrange(k as int, i as int).push(
            moments@[i as int],
        ));
        i += 1;
    }
    assert(out@ == moments@.skip(k as int));
    out
}

/// The moments still inside the window, wherever they stand.
fn counted_moments(moments: &Vec<u128>, now: u128, window: u128) -> (r: Vec<u128>)
    ensures
        r@ == still_counted(moments@, now, window as int),
{
    let mut out: Vec<u128> = Vec::new();
    let mut i: usize = 0;
    while i < moments.len()
        invariant
            0 <= i <= moments.len(),
            out@ == still_counted(moments@.take(i as int), now, window as int),
        decreases moments.len() - i,
    {
        let t = moments[i];
        proof {
            let p = |x: u128| elapsed(now, x) < window as int;
            let longer = moments@.take(i + 1);
            assert(longer.drop_last() == moments@.take(i as int));
            assert(longer.last() == t);
            reveal(Seq::filter);
            assert(longer.filter(p) == if p(t) {
                moments@.take(i as int).filter(p).push(t)
            } else {
                moments@.take(i as int).filter(p)
            });
        }
        if elapsed_since(now, t) < window {
            out.push(t);
        }
        i += 1;
    }
    assert(moments@.take(moments.len() as int) == moments@);
    out
}

fn window_in_nanos(limit: Limit) -> (r: u128)
    ensures
        r == window_nanos(limit),
{
    assert(limit.window_secs as int * NANOS_PER_SECOND as int <= u64::MAX as int * 1_000_000_000)
        by (nonlinear_arith)
        requires
            limit.window_secs <= u64::MAX,
    ;
    limit.window_secs as u128 * NANOS_PER_SECOND
}

/// The count itself, separated from the middleware so its rules can be
/// exercised with a clock the test controls.
pub struct Limiter {
    config: GateConfig,
    records: Vec<AttemptRecord>,
    history: Ghost<Seq<Attempt>>,
}

impl Limiter {
    /// The remembered moments of each budget and address.
    pub closed spec fn attempts(&self) -> Map<(Budget, ClientAddress), Seq<u128>> {
        records_map(self.records@)
    }

    pub closed spec fn spec_config(&self) -> GateConfig {
        self.config
    }

    /// Every attempt counted so far, in order.
    pub closed spec fn history(&self) -> Seq<Attempt> {
        self.history@
    }

    /// No budget and address is remembered twice, and what is remembered is
    /// what the history of attempts leaves.
    pub closed spec fn wf(&self) -> bool {
        &&& keys_unique(self.records@)
        &&& records_map(self.records@) == run(self.config, self.history@).0
    }

    pub fn new(config: GateConfig) -> (r: Self)
        ensures
            r.wf(),
            r.spec_config() == config,
            r.attempts() == Map::<(Budget, ClientAddress), Seq<u128>>::empty(),
            r.history() == Seq::<Attempt>::empty(),
    {
        Limiter { config, records: Vec::new(), history: Ghost(Seq::empty()) }
    }

    /// The position of the record for one budget and address, if any.
    fn position_of(&self, budget: Budget, address: ClientAddress) -> (r: Option<usize>)
        requires
            keys_unique(self.records@),
        ensures
            match r {
                Some(i) => i < self.records@.len() && record_key(self.records@[i as int]) == (
                    budget,
                    address,
                ),
                None => !self.attempts().dom().contains((budget, address)),
            },
    {
        let mut i: usize = 0;
        while i < self.records.len()
            invariant
                0 <= i <= self.records@.len(),
                forall|j: int|
                    0 <= j < i ==> record_key(#[trigger] self.records@[j]) != (budget, address),
            decreases self.records.len() - i,
        {
            if self.records[i].budget == budget && self.records[i].address == address {
                return Some(i);
            }
            i += 1;
        }
        proof {
            lemma_records_absent(self.records@, (budget, address));
        }
        None
    }

    /// Forgets every moment outside its window, and every pair left empty.
    fn sweep(&mut self, now: u128)
        requires
            keys_unique(old(self).records@),
        ensures
            keys_unique(final(self).records@),
            final(self).history@ == old(self).history@,
            final(self).spec_config() == old(self).spec_config(),
            final(self).attempts() == swept(old(self).attempts(), old(self).spec_config(), now),
    {
        let ghost s = self.records@;
        let ghost config = self.config;
        let mut kept: Vec<AttemptRecord> = Vec::new();
        let mut i: usize = 0;
        while i < self.records.len()
            invariant
                self.records@ == s,
                self.config == config,
                keys_unique(s),
                0 <= i <= s.len(),
                keys_unique(kept@),
                forall|a: int|
                    0 <= a < kept@.len() ==> exists|b: int|
                        0 <= b < i && record_key(#[trigger] kept@[a]) == record_key(s[b]),
                records_map(kept@) == swept(records_map(s.take(i as int)), config, now),
            decreases s.len() - i,
        {
            let record = &self.records[i];
            let window = window_in_nanos(self.config.limit(record.budget));
            let moments = counted_moments(&record.moments, now, window);
            let ghost key = record_key(s[i as int]);
            let ghost before = records_map(s.take(i as int));
            proof {
                assert(s.take(i + 1).drop_last() == s.take(i as int));
                assert forall|b: int| 0 <= b < s.take(i as int).len() implies record_key(
                    #[trigger] s.take(i as int)[b],
                ) != key by {
                    assert(record_key(s[b]) != record_key(s[i as int]));
                }
                lemma_records_absent(s.take(i as int), key);
            }
            if moments.len() > 0 {
                let fresh = AttemptRecord { budget: record.budget, address: record.address, moments };
                proof {
                    assert forall|a: int| 0 <= a < kept@.len() implies record_key(
                        #[trigger] kept@[a],
                    ) != record_key(fresh) by {
                        let b = choose|b: int| 0 <= b < i && record_key(kept@[a]) == record_key(s[b]);
                        assert(record_key(s[b]) != record_key(s[i as int]));
                    }
                    lemma_records_push(kept@, fresh);
                    assert(swept(before.insert(key, s[i as int].moments@), config, now) =~= swept(
                        before,
                        config,
                        now,
                    ).insert(key, fresh.moments@));
                }
                kept.push(fresh);
                proof {
                    assert forall|a: int| 0 <= a < kept@.len() implies exists|b: int|
                        0 <= b < i + 1 && record_key(#[trigger] kept@[a]) == record_key(s[b]) by {
                        if a == kept@.len() - 1 {
                            assert(record_key(kept@[a]) == record_key(s[i as int]));
                        } else {
                            let b = choose|b: int|
                                0 <= b < i && record_key(kept@[a]) == record_key(s[b]);
                            assert(record_key(kept@[a]) == record_key(s[b]));
                        }
                    }
                }
            } else {
                proof {
                    assert(swept(before.insert(key, s[i as int].moments@), config, now) =~= swept(
                        before,
                        config,
                        now,
                    ));
                }
            }
            i += 1;
        }
        assert(s.take(s.len() as int) == s);
        self.records = kept;
    }

    /// Records one attempt at `now` and says whether it may proceed.
    pub fn check(&mut self, budget: Budget, address: ClientAddress, now: u128) -> (d: Decision)
        requires
            old(self).wf(),
        ensures
            final(self).wf(),
            final(self).spec_config() == old(self).spec_config(),
            (final(self).attempts(), d) == check_step(
                old(self).attempts(),
                old(self).spec_config(),
                budget,
                address,
                now,
            ),
            final(self).history() == old(self).history().push((budget, address, now)),
            clock_runs_forward(final(self).history()) ==> d == answer(
                old(self).spec_config(),
                budget,
                now,
                allowed_moments(old(self).spec_config(), old(self).history(), (budget, address)),
            ),
    {
        let ghost h = self.history@;
        let ghost config = self.config;
        let ghost start = self.attempts();
        let limit = self.config.limit(budget);
        let window = window_in_nanos(limit);
        proof {
            lemma_records_len(self.records@);
        }
        if self.records.len() > SWEEP_ABOVE {
            self.sweep(now);
        }
        let ghost before = self.attempts();
        let position = self.position_of(budget, address);
        let prior = match position {
            Some(i) => {
                proof {
                    lemma_records_lookup(self.records@, i as int);
                }
                without_expired(&self.records[i].moments, now, window)
            },
            None => {
                let empty: Vec<u128> = Vec::new();
                without_expired(&empty, now, window)
            },
        };
        let mut live = prior;
        let decision = if live.len() as u64 >= limit.attempts as u64 {
            let oldest = if live.len() > 0 {
                live[0]
            } else {
                now
            };
            let since = elapsed_since(now, oldest);
            let left = if window > since {
                window - since
            } else {
                0
            };
            let wait = if left < NANOS_PER_SECOND {
                NANOS_PER_SECOND
            } else {
                left
            };
            Decision::Refused(wait)
        } else {
            live.push(now);
            Decision::Allowed
        };
        let record = AttemptRecord { budget, address, moments: live };
        match position {
            Some(i) => {
                proof {
                    lemma_records_update(self.records@, i as int, record);
                }
                self.records.set(i, record);
            },
            None => {
                proof {
                    assert forall|j: int| 0 <= j < self.records@.len() implies record_key(
                        #[trigger] self.records@[j],
                    ) != record_key(record) by {
                        if record_key(self.records@[j]) == record_key(record) {
                            lemma_records_lookup(self.records@, j);
                        }
                    }
                    lemma_records_push(self.records@, record);
                }
                self.records.push(record);
            },
        }
        let ghost c: Attempt = (budget, address, now);
        proof {
            let h2 = h.push(c);
            assert(h2.drop_last() =~= h);
            assert(h2.last() == c);
            assert(run(config, h2).0 == check_step(start, config, budget, address, now).0);
            assert(run(config, h2).1 == run(config, h).1.push(decision));
            if clock_runs_forward(h2) {
                law_the_limit_over_a_history(config, h2, h.len() as int);
                assert(h2.take(h.len() as int) =~= h);
                assert(h2[h.len() as int] == c);
            }
        }
        self.history = Ghost(h.push(c));
        decision
    }

    /// One request: an unguarded path passes uncounted; a request to an
    /// account door is counted under its budget and the address the
    /// configured source names.
    pub fn check_request(
        &mut self,
        doors: &AccountDoors,
        path: &str,
        peer: Option<ClientAddress>,
        forwarded: Option<ClientAddress>,
        now: u128,
    ) -> (r: Option<Decision>)
        requires
            old(self).wf(),
        ensures
            final(self).wf(),
            final(self).spec_config() == old(self).spec_config(),
            match budget_of(path@, doors) {
                None => r is None && final(self).attempts() == old(self).attempts()
                    && final(self).history() == old(self).history(),
                Some(budget) => {
                    let address = counted_address(
                        old(self).spec_config().address_source,
                        peer,
                        forwarded,
                    );
                    let (after, decision) = check_step(
                        old(self).attempts(),
                        old(self).spec_config(),
                        budget,
                        address,
                        now,
                    );
                    &&& r == Some(decision)
                    &&& final(self).attempts() == after
                    &&& final(self).history() == old(self).history().push((budget, address, now))
                },
            },
    {
        match budget_for(path, doors) {
            None => None,
            Some(budget) => {
                let address = client_address(self.config.address_source, peer, forwarded);
                Some(self.check(budget, address, now))
            },
        }
    }

    pub fn config(&self) -> (r: &GateConfig)
        ensures
            *r == self.spec_config(),
    {
        &self.config
    }
}

} // verus!
