# liquid_inheritance

A maker locks lamports in a shared vault and receives protocol tokens (shares)
for them. As long as the maker checks in within the chosen inactivity period,
the funds stay theirs; once the period passes without a check-in, anyone may
trigger the inheritance, which burns the maker's shares and pays their value,
less a protocol fee, to the named inheritor.

- `src/` — the verified decision logic (Verus): account state (`state`),
  share pricing, one module per instruction under `instructions/`, the
  invocations an instruction asks for (`cpi`), errors, and proved
  properties that span instructions (`laws`).
- `app/` — the Anchor program: account validation, reading the clock,
  converting accounts to and from the library's types, and performing the
  invocations.
- `tests/` — tests of the library on concrete values.
