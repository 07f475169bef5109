//! The rate limit over a whole history of attempts: each answer depends only
//! on the earlier attempts that were allowed, and only on those still inside
//! the window.

use vstd::prelude::*;
use crate::gate::{Budget, ClientAddress, GateConfig};
use crate::limiter::{
    check_step, drop_expired, elapsed, in_order, refusal_wait, still_counted, swept,
    window_nanos, Decision, SWEEP_ABOVE,
};

verus! {

/// One attempt: the budget, the address, and the moment.
pub type Attempt = (Budget, ClientAddress, u128);

/// The remembered attempts and the answers after a history of attempts,
/// starting from nothing remembered.
pub open spec fn run(config: GateConfig, calls: Seq<Attempt>) -> (
    Map<(Budget, ClientAddress), Seq<u128>>,
    Seq<Decision>,
)
    decreases calls.len(),
{
    if calls.len() == 0 {
        (Map::empty(), Seq::empty())
    } else {
        let (m, ds) = run(config, calls.drop_last());
        let c = calls.last();
        let (m2, d) = check_step(m, config, c.0, c.1, c.2);
        (m2, ds.push(d))
    }
}

/// The moments of the attempts of a history, for one budget and address,
/// that were allowed.
pub open spec fn allowed_moments(config: GateConfig, calls: Seq<Attempt>, key: (
    Budget,
    ClientAddress,
)) -> Seq<u128>
    decreases calls.len(),
{
    if calls.len() == 0 {
        Seq::empty()
    } else {
        let rest = allowed_moments(config, calls.drop_last(), key);
        let c = calls.last();
        if (c.0, c.1) == key && run(config, calls).1.last() == Decision::Allowed {
            rest.push(c.2)
        } else {
            rest
        }
    }
}

/// The moments of a history never run back.
pub open spec fn clock_runs_forward(calls: Seq<Attempt>) -> bool {
    forall|i: int, j: int| 0 <= i < j < calls.len() ==> (#[trigger] calls[i]).2 <= (#[trigger] calls[j]).2
}

/// The answer to an attempt at `now` given the earlier allowed moments of
/// its budget and address: refused once as many as the limit allows are
/// still inside the window, for what is left of the window after the oldest
/// of them (a limit of no attempts refuses for a second).
pub open spec fn answer(config: GateConfig, budget: Budget, now: u128, allowed: Seq<u128>) -> Decision {
    let limit = config.spec_limit(budget);
    let counted = still_counted(allowed, now, window_nanos(limit));
    let oldest = if counted.len() > 0 {
        counted[0]
    } else {
        now
    };
    if counted.len() < limit.attempts {
        Decision::Allowed
    } else {
        Decision::Refused(refusal_wait(window_nanos(limit), elapsed(now, oldest)) as u128)
    }
}

spec fn remembered(m: Map<(Budget, ClientAddress), Seq<u128>>, k: (Budget, ClientAddress)) -> Seq<
    u128,
> {
    if m.dom().contains(k) {
        m[k]
    } else {
        Seq::empty()
    }
}

spec fn key_window(config: GateConfig, k: (Budget, ClientAddress)) -> int {
    window_nanos(config.spec_limit(k.0))
}

/// What is remembered of a key is the allowed moments with some of the
/// oldest, already outside the window at `last`, forgotten.
spec fn tail_of(a: Seq<u128>, r: Seq<u128>, last: u128, w: int) -> bool {
    &&& in_order(a)
    &&& forall|i: int| 0 <= i < a.len() ==> #[trigger] a[i] <= last
    &&& exists|j: int|
        0 <= j <= a.len() && r == a.subrange(j, a.len() as int) && forall|i: int|
            0 <= i < j ==> elapsed(last, #[trigger] a[i]) >= w
}

spec fn tracks(
    m: Map<(Budget, ClientAddress), Seq<u128>>,
    config: GateConfig,
    calls: Seq<Attempt>,
    last: u128,
) -> bool {
    forall|k: (Budget, ClientAddress)|
        tail_of(
            #[trigger] allowed_moments(config, calls, k),
            remembered(m, k),
            last,
            key_window(config, k),
        )
}

/// In order, the moments outside the window come first: what is still
/// counted is a suffix.
proof fn lemma_counted_suffix(a: Seq<u128>, now: u128, w: int) -> (c: int)
    requires
        in_order(a),
        forall|i: int| 0 <= i < a.len() ==> #[trigger] a[i] <= now,
    ensures
        0 <= c <= a.len(),
        still_counted(a, now, w) == a.subrange(c, a.len() as int),
        forall|i: int| 0 <= i < c ==> elapsed(now, #[trigger] a[i]) >= w,
        forall|i: int| c <= i < a.len() ==> elapsed(now, #[trigger] a[i]) < w,
    decreases a.len(),
{
    let p = |x: u128| elapsed(now, x) < w;
    reveal(Seq::filter);
    if a.len() == 0 {
        assert(a.filter(p) =~= a.subrange(0, 0));
        0
    } else {
        let d = a.drop_last();
        assert forall|i: int, j: int| 0 <= i < j < d.len() implies #[trigger] d[i] <= #[trigger] d[j] by {
            assert(d[i] == a[i] && d[j] == a[j]);
        }
        assert forall|i: int| 0 <= i < d.len() implies #[trigger] d[i] <= now by {
            assert(d[i] == a[i]);
        }
        let c0 = lemma_counted_suffix(d, now, w);
        let n = a.len() - 1;
        assert(a[n] == a.last());
        if p(a.last()) {
            assert(d.subrange(c0, d.len() as int).push(a.last()) =~= a.subrange(c0, a.len() as int));
            assert forall|i: int| c0 <= i < a.len() implies elapsed(now, #[trigger] a[i]) < w by {
                if i < n {
                    assert(d[i] == a[i]);
                }
            }
            assert forall|i: int| 0 <= i < c0 implies elapsed(now, #[trigger] a[i]) >= w by {
                assert(d[i] == a[i]);
            }
            c0
        } else {
            assert forall|i: int| 0 <= i < a.len() implies elapsed(now, #[trigger] a[i]) >= w by {
                if i < n {
                    assert(a[i] <= a[n]);
                }
            }
            if c0 < d.len() {
                assert(d[c0] == a[c0]);
            }
            assert(d.subrange(c0, d.len() as int) =~= Seq::<u128>::empty());
            assert(a.subrange(a.len() as int, a.len() as int) =~= Seq::<u128>::empty());
            a.len() as int
        }
    }
}

/// Dropping the expired front of a suffix that starts no later than the
/// first counted moment leaves exactly the counted moments.
proof fn lemma_drop_to(a: Seq<u128>, j: int, c: int, now: u128, w: int)
    requires
        0 <= j <= c <= a.len(),
        forall|i: int| 0 <= i < c ==> elapsed(now, #[trigger] a[i]) >= w,
        c < a.len() ==> elapsed(now, a[c]) < w,
    ensures
        drop_expired(a.subrange(j, a.len() as int), now, w) == a.subrange(c, a.len() as int),
    decreases c - j,
{
    let s = a.subrange(j, a.len() as int);
    if j < c {
        assert(s[0] == a[j]);
        assert(s.drop_first() =~= a.subrange(j + 1, a.len() as int));
        lemma_drop_to(a, j + 1, c, now, w);
    } else if s.len() > 0 {
        assert(s[0] == a[c]);
    }
}

proof fn lemma_counted_of_suffix(a: Seq<u128>, j: int, c: int, now: u128, w: int)
    requires
        in_order(a),
        forall|i: int| 0 <= i < a.len() ==> #[trigger] a[i] <= now,
        0 <= j <= c <= a.len(),
        forall|i: int| 0 <= i < c ==> elapsed(now, #[trigger] a[i]) >= w,
        forall|i: int| c <= i < a.len() ==> elapsed(now, #[trigger] a[i]) < w,
    ensures
        still_counted(a.subrange(j, a.len() as int), now, w) == a.subrange(c, a.len() as int),
{
    let s = a.subrange(j, a.len() as int);
    assert forall|x: int, y: int| 0 <= x < y < s.len() implies #[trigger] s[x] <= #[trigger] s[y] by {
        assert(s[x] == a[x + j] && s[y] == a[y + j]);
    }
    assert forall|i: int| 0 <= i < s.len() implies #[trigger] s[i] <= now by {
        assert(s[i] == a[i + j]);
    }
    let cs = lemma_counted_suffix(s, now, w);
    if cs < c - j {
        assert(s[cs] == a[cs + j]);
    }
    if cs > c - j {
        assert(s[c - j] == a[c]);
    }
    assert(s.subrange(cs, s.len() as int) =~= a.subrange(c, a.len() as int));
}

proof fn lemma_step(
    m: Map<(Budget, ClientAddress), Seq<u128>>,
    config: GateConfig,
    calls: Seq<Attempt>,
    last: u128,
    c: Attempt,
)
    requires
        m == run(config, calls).0,
        tracks(m, config, calls, last),
        last <= c.2,
    ensures
        check_step(m, config, c.0, c.1, c.2).1 == answer(
            config,
            c.0,
            c.2,
            allowed_moments(config, calls, (c.0, c.1)),
        ),
        in_order(still_counted(allowed_moments(config, calls, (c.0, c.1)), c.2, key_window(config, (c.0, c.1)))),
        tracks(
            check_step(m, config, c.0, c.1, c.2).0,
            config,
            calls.push(c),
            c.2,
        ),
{
    let now = c.2;
    let k0 = (c.0, c.1);
    let before = if m.dom().len() > SWEEP_ABOVE {
        swept(m, config, now)
    } else {
        m
    };
    // every key: what is remembered before the count is the allowed moments
    // with the expired ones forgotten, or some of them
    assert forall|k: (Budget, ClientAddress)|
        #![trigger allowed_moments(config, calls, k)]
        {
            let a = allowed_moments(config, calls, k);
            let w = key_window(config, k);
            &&& in_order(a)
            &&& (forall|i: int| 0 <= i < a.len() ==> #[trigger] a[i] <= now)
            &&& exists|j: int|
                0 <= j <= a.len() && remembered(before, k) == a.subrange(j, a.len() as int)
                    && forall|i: int| 0 <= i < j ==> elapsed(now, #[trigger] a[i]) >= w
        } by {
        let a = allowed_moments(config, calls, k);
        let w = key_window(config, k);
        assert(tail_of(a, remembered(m, k), last, w));
        let j = choose|j: int|
            0 <= j <= a.len() && remembered(m, k) == a.subrange(j, a.len() as int) && forall|i: int|
                0 <= i < j ==> elapsed(last, #[trigger] a[i]) >= w;
        assert forall|i: int| 0 <= i < a.len() implies #[trigger] a[i] <= now by {}
        let cc = lemma_counted_suffix(a, now, w);
        assert forall|i: int| 0 <= i < j implies elapsed(now, #[trigger] a[i]) >= w by {
            assert(elapsed(last, a[i]) >= w);
        }
        if j > cc {
            assert(elapsed(now, a[cc]) >= w);
        }
        if m.dom().len() > SWEEP_ABOVE {
            lemma_counted_of_suffix(a, j, cc, now, w);
            let r = still_counted(remembered(m, k), now, w);
            if !m.dom().contains(k) {
                assert(r =~= Seq::<u128>::empty()) by {
                    reveal(Seq::filter);
                }
            }
            if !before.dom().contains(k) {
                assert(remembered(before, k) =~= r);
            }
            assert(remembered(before, k) == a.subrange(cc, a.len() as int));
        }
    }
    let a0 = allowed_moments(config, calls, k0);
    let w0 = key_window(config, k0);
    let limit = config.spec_limit(c.0);
    assert(w0 == window_nanos(limit));
    let j0 = choose|j: int|
        0 <= j <= a0.len() && remembered(before, k0) == a0.subrange(j, a0.len() as int) && forall|i: int|
            0 <= i < j ==> elapsed(now, #[trigger] a0[i]) >= w0;
    let c0 = lemma_counted_suffix(a0, now, w0);
    // j0 never passes the first counted moment: the forgotten ones are expired
    if j0 > c0 {
        assert(elapsed(now, a0[c0]) >= w0);
    }
    lemma_drop_to(a0, j0, c0, now, w0);
    let prior = if before.dom().contains(k0) {
        before[k0]
    } else {
        Seq::<u128>::empty()
    };
    assert(prior == remembered(before, k0));
    let live = drop_expired(prior, now, w0);
    assert(live == a0.subrange(c0, a0.len() as int));
    assert(live == still_counted(a0, now, w0));
    assert forall|x: int, y: int| 0 <= x < y < live.len() implies #[trigger] live[x] <= #[trigger] live[y] by {
        assert(live[x] == a0[x + c0] && live[y] == a0[y + c0]);
    }
    let (m2, d) = check_step(m, config, c.0, c.1, now);
    let calls2 = calls.push(c);
    assert(calls2.drop_last() =~= calls);
    assert(calls2.last() == c);
    assert(run(config, calls2).1.last() == check_step(run(config, calls).0, config, c.0, c.1, now).1);
    // the new state
    assert forall|k: (Budget, ClientAddress)|
        tail_of(
            #[trigger] allowed_moments(config, calls2, k),
            remembered(m2, k),
            now,
            key_window(config, k),
        ) by {
        let a = allowed_moments(config, calls, k);
        let w = key_window(config, k);
        let j = choose|j: int|
            0 <= j <= a.len() && remembered(before, k) == a.subrange(j, a.len() as int) && forall|i: int|
                0 <= i < j ==> elapsed(now, #[trigger] a[i]) >= w;
        if k == k0 {
            assert(remembered(m2, k) == if d == Decision::Allowed { live.push(now) } else { live });
            assert(forall|i: int| 0 <= i < c0 ==> elapsed(now, #[trigger] a0[i]) >= w0);
            if d == Decision::Allowed {
                assert(run(config, calls2).1.last() == Decision::Allowed);
                let a2 = a0.push(now);
                assert(allowed_moments(config, calls2, k) == a2);
                assert(live.push(now) =~= a2.subrange(c0, a2.len() as int));
                assert forall|i: int| 0 <= i < c0 implies elapsed(now, #[trigger] a2[i]) >= w0 by {
                    assert(a2[i] == a0[i]);
                }
                assert forall|x: int, y: int| 0 <= x < y < a2.len() implies #[trigger] a2[x] <= #[trigger] a2[y] by {
                    if y < a0.len() {
                        assert(a2[x] == a0[x] && a2[y] == a0[y]);
                    } else {
                        assert(a2[x] == a0[x]);
                    }
                }
                assert forall|i: int| 0 <= i < a2.len() implies #[trigger] a2[i] <= now by {
                    if i < a0.len() {
                        assert(a2[i] == a0[i]);
                    }
                }
            } else {
                assert(allowed_moments(config, calls2, k) == a0);
            }
        } else {
            assert(allowed_moments(config, calls2, k) == a);
            assert(remembered(m2, k) == remembered(before, k));
        }
    }
}

proof fn lemma_run(config: GateConfig, calls: Seq<Attempt>)
    requires
        clock_runs_forward(calls),
    ensures
        tracks(run(config, calls).0, config, calls, if calls.len() == 0 { 0 } else { calls.last().2 }),
        run(config, calls).1.len() == calls.len(),
        forall|n: int|
            0 <= n < calls.len() ==> #[trigger] run(config, calls).1[n] == answer(
                config,
                calls[n].0,
                calls[n].2,
                allowed_moments(config, calls.take(n), (calls[n].0, calls[n].1)),
            ),
    decreases calls.len(),
{
    if calls.len() == 0 {
        assert forall|k: (Budget, ClientAddress)|
            tail_of(
                #[trigger] allowed_moments(config, calls, k),
                remembered(run(config, calls).0, k),
                0,
                key_window(config, k),
            ) by {
            let a = allowed_moments(config, calls, k);
            assert(a =~= a.subrange(0, 0));
        }
    } else {
        let d = calls.drop_last();
        assert forall|i: int, j: int| 0 <= i < j < d.len() implies (#[trigger] d[i]).2 <= (#[trigger] d[j]).2 by {
            assert(d[i] == calls[i] && d[j] == calls[j]);
        }
        lemma_run(config, d);
        let last = if d.len() == 0 { 0u128 } else { d.last().2 };
        let c = calls.last();
        if d.len() > 0 {
            assert(d.last() == calls[d.len() - 1]);
            assert(calls[d.len() - 1].2 <= calls[calls.len() - 1].2);
        }
        assert(d.push(c) =~= calls);
        lemma_step(run(config, d).0, config, d, last, c);
        assert forall|n: int| 0 <= n < calls.len() implies #[trigger] run(config, calls).1[n] == answer(
            config,
            calls[n].0,
            calls[n].2,
            allowed_moments(config, calls.take(n), (calls[n].0, calls[n].1)),
        ) by {
            if n < d.len() {
                assert(calls.take(n) =~= d.take(n));
                assert(calls[n] == d[n]);
            } else {
                assert(calls.take(n) =~= d);
            }
        }
    }
}

/// Over any history whose clock never runs back, starting from nothing
/// remembered: an attempt is allowed exactly when fewer of the earlier
/// allowed attempts of its budget and address than the limit are still
/// inside the window, and is refused otherwise for what is left of the
/// window after the oldest of them, at least a second. Only an allowed
/// attempt is remembered: later answers are as if a refused one never
/// happened.
pub proof fn law_the_limit_over_a_history(config: GateConfig, calls: Seq<Attempt>, n: int)
    requires
        clock_runs_forward(calls),
        0 <= n < calls.len(),
    ensures
        run(config, calls).1.len() == calls.len(),
        run(config, calls).1[n] == answer(
            config,
            calls[n].0,
            calls[n].2,
            allowed_moments(config, calls.take(n), (calls[n].0, calls[n].1)),
        ),
        allowed_moments(config, calls.take(n + 1), (calls[n].0, calls[n].1)) == if run(
            config,
            calls,
        ).1[n] == Decision::Allowed {
            allowed_moments(config, calls.take(n), (calls[n].0, calls[n].1)).push(calls[n].2)
        } else {
            allowed_moments(config, calls.take(n), (calls[n].0, calls[n].1))
        },
        in_order(
            still_counted(
                allowed_moments(config, calls.take(n), (calls[n].0, calls[n].1)),
                calls[n].2,
                window_nanos(config.spec_limit(calls[n].0)),
            ),
        ),
{
    lemma_run(config, calls);
    let p = calls.take(n + 1);
    assert forall|i: int, j: int| 0 <= i < j < p.len() implies (#[trigger] p[i]).2 <= (#[trigger] p[j]).2 by {
        assert(p[i] == calls[i] && p[j] == calls[j]);
    }
    lemma_run(config, p);
    assert(p.take(n) =~= calls.take(n));
    assert(p[n] == calls[n]);
    assert(p.drop_last() =~= calls.take(n));
    assert(run(config, p).1[n] == run(config, calls).1[n]);
    let q = calls.take(n);
    assert forall|i: int, j: int| 0 <= i < j < q.len() implies (#[trigger] q[i]).2 <= (#[trigger] q[j]).2 by {
        assert(q[i] == calls[i] && q[j] == calls[j]);
    }
    lemma_run(config, q);
    let last = if q.len() == 0 { 0u128 } else { q.last().2 };
    if q.len() > 0 {
        assert(q.last() == calls[n - 1]);
    }
    lemma_step(run(config, q).0, config, q, last, calls[n]);
}

} // verus!
