# pwm_driver

Driver logic for a chip with eight PWM controllers of two channels each,
with dead-band generation and a duty FIFO per channel.

- `src/` is the verified library.
  - `bits.rs`: register bit fields and field values, with the field
    arithmetic of `tock_registers` behind small trusted wrappers.
  - `registers.rs`: the register map (offsets and fields).
  - `config.rs`: channel configuration (the duty cycle is held as the bits
    of its single-precision value) and the integer arithmetic on it: the
    clock divider, the duty range test, the dead-band limit. The
    single-precision period, duty and dead-band computations are done by the
    caller and handed in as `ChannelTiming`, or, during interrupt handling,
    asked for with `BusRequest::ScaleDuty`.
  - `controller.rs`: one controller. Operations queue the register writes
    they make (`take_bus_ops`); operations that depend on register reads are
    stepped with `BusRequest`s and `resume`.
  - `calls.rs`: the operations as state transitions, and what all of them
    keep (configurations, the ENABLE bit against the enabled flags).
  - `system.rs`: all controllers, the global enable mask, the usage example.
- `app/` performs the register accesses on the memory-mapped block with
  `tock_registers`, waits with `cortex_m::asm::nop`, and does the
  single-precision arithmetic.
- `tests/` exercises the library on concrete values.
