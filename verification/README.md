# lib: a verified model of the SNES S-DSP core state

- `src/sizes.rs`, `src/registers.rs`: sizes and register addresses.
- `src/voice.rs`: one voice and its initial state.
- `src/state.rs`: the DSP state (`State`), its plain-value view (`StateView`),
  spec functions for each operation, and the operations themselves.
- `src/SPC_DSP.rs`: the `SPC_DSP` emulator and the `Emulator` trait.
- `src/laws.rs`: properties across operations (read after write, muting,
  idempotence of mute/load/soft reset, what `init` leaves behind).
- `tests/dsp.rs`: tests on concrete values.
