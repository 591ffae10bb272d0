# conformity

A hardware-in-the-loop test suite for `embedded-hal` implementations: a host
runner flashes a device under test and a shield (an RP2040/RP2350 acting as
fake peripheral), sends them test commands over RTT and collects their
reports.

The library (`src/`) holds the decisions of all three parties, verified with
Verus:

- `selector`: the registry of tests.
- `protocol`: the messages between host, device and shield.
- `framing`: COBS framing of messages and the accumulator that splits a
  byte stream back into frames.
- `coordinator`: the host's bookkeeping of acknowledgements, deadlines and
  test completion.
- `dut`: what the device under test does in each phase of a test and how it
  judges the outcome of each hardware operation.
- `fp`: the shield's phases, its state-machine preparations and checks.
- `tester`: the shield's checker of I2C transactions against queued
  expectations.
- `logger`, `runner`: log levels and probe selection for the host.

`app/` is the host program around it (command line, probe-rs sessions,
firmware build and flash, defmt log decoding) and the device-side loop that
performs the library's hardware operations through `embedded-hal`.
