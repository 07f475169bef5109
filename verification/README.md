# web

The rules of a durian-orchard business-planning service, verified with Verus.

`src/` is the library. Every function in it carries a contract that Verus
proves, except the few wrappers that call `rust_decimal` and
`String::push`, whose contracts are trusted and say what those calls do:

- `settings`: boolean flags and the `PORT` variable read from the environment.
- `gate` and `limiter`: the rate limit on the account doors: parsing limits
  and the client-address source, which door a path is, the count of recent
  attempts per budget and address, and the sentence a refused client reads.
  The laws of the count (it engages after the configured number of
  attempts, releases after the window, never counts a refused attempt,
  counts budgets and addresses apart, and never extends a wait) are proof
  functions in `limiter`.
- `mail`: SMTP settings from the environment, and the subject, body and
  link of each letter.
- `amount`: decimal amounts read and written through `rust_decimal`.
- `plans`, `plan_form`, `assets`: the checks applied to what an owner
  types: season details, quick and actual figures, form fields, a whole
  asset, and the plan form whose sections are saved one at a time, with
  each section's readiness badge.
- `plan_facts`: the plan form read into a plan (every unreadable value
  reported under its field and kept in the form, percentages turned into
  shares at the boundary, grade kilograms converted against the sellable
  figure), the plan written back into a form, the switch between grade
  units, and grade totals. `plan_round_trip` proves that a plan read from a
  form comes back unchanged through the form.
- `limiter_history`: the rate limit over any history of attempts; each
  `Limiter` keeps that history as ghost state, so `Limiter::check` states
  its answer over the earlier allowed attempts directly.
- `plan_ui`, `analysis_ui`, `auth`: how figures, states and labels are
  written on the pages, what each account door answers, and which pages
  need a signed-in owner.
- `text`: characters of strings, white space, separators and decimal numerals.

`app/` is the server around it: reading the environment, the axum
middleware that applies the rate limit, and SMTP delivery with lettre.
