# notty_smart_contract

The accounting of a bonding-curve token launchpad, verified with Verus.

- `src/` is the library: global admin state (`global`), the bonding-curve vault and
  its pricing (`vault`, `market`), trades with their fee split, graduation and
  migration (`trade`), token launches (`launch`), and the linear pricing helpers
  (`linear_curve`). Every function carries a contract that Verus proves.
- `app/` is the Anchor program around the library: account validation, lamport and
  token transfers, metadata and launchpad cross-program calls, events, and the
  floating-point market cap curve, which the library receives as a function.
- `tests/` runs the library on concrete values, with the floating-point curve.
