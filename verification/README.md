# ops_hub

The verified core of an operations hub: service catalog search, work orders
and their reviews, warehouses, accounts and roles, and the browser-side state
of the web client (session, navigation, search forms, comparison and tag
selections, API paths).

- `src/` holds the library. Every function there carries a `requires` /
  `ensures` contract proved by Verus; the proof functions state the laws the
  library keeps (for example that percent-encoding can be read back, that a
  tag toggled twice is where it started, that the comparison list never
  exceeds its limit, that a login redirect never loops).
- `tests/` runs the library on concrete values.
- `app/` is the unverified rim: serde copies of library types, floating-point
  reputation and bin-size rules, and conversions to and from `uuid` and
  `chrono` values.

Verify with Verus on `src/lib.rs`; build and test with Cargo.
