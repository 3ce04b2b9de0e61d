# curdk

Rust bindings for the [Curses Development Kit](https://invisible-island.net/cdk),
with the conversions between Rust and C proved correct with Verus.

Every widget call checks and converts its arguments before CDK sees them:
positions, sizes and counts must fit in a C `int`, strings must hold no zero
byte, lists that belong together must have the same length, and some lists are
passed from index 1. CDK's answers are decoded on the way back: activation
codes, status codes, null handles and C strings. The library states each of
these conversions as a contract, including which argument is checked first and
which error a caller gets.

## Layout

- `src/` — the verified library (`curdk`):
  - `error.rs`: `Error`, its messages, and `checked_c_int`;
  - `ctext.rs`: C strings (`CText`, `CStringArray`), one-based lists, and
    decoding of strings CDK returns;
  - `activation.rs`: `Activation` and the decoding of CDK's result codes;
  - `border.rs`, `position.rs`, `keys.rs`: box and shadow flags, placement
    constants, and the key bytes `Label::wait` exchanges;
  - `terminal.rs`: when curses has to be ended;
  - `widgets/`: the argument conversions of each widget call.
- `app/` — the widget handles: the native calls into CDK through `curdk_sys`,
  around the verified conversions.
- `tests/` — tests of the library.
