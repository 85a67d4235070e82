# rmk

Input pipeline and radio links of a split keyboard with pointing devices, verified with
Verus.

- `src/pointing/` turns sensor motion into mouse reports, scrolling and key taps.
- `src/touchpad.rs` and `src/touch_poll.rs` decode and poll a capacitive touchpad.
- `src/ble/` advertises, answers hosts, coalesces mouse reports and manages links.
- `src/split/` finds, proves, supervises and powers the links to split peripherals.
- `src/ergohaven.rs`, `src/vial.rs`, `src/battery.rs` and `src/state.rs` hold user keys,
  host configuration, battery level and connection state.
- `app/` performs the I/O: radios, buses, timers and tasks.

Calls into other crates (trouble-host, heapless) stand behind small functions marked
`#[verifier::external_body]`; their contracts are the only ones that are not proved.
