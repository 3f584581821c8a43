# io_board

Firmware logic of a CAN node that drives valves, heating pads and high current outputs and reads
pressure, temperature and position sensors, written in Verus and proved against its contracts.

- `src/` is the library. Every item of it is verified; the few places that call an outside crate are
  marked `external_body` and say what is believed of the call.
- `tests/` runs the compiled library on concrete values.
- `app/` is the firmware around it: peripherals, interrupts, tasks and the calibrations that are
  written in floating point.

## The library

| module | what it holds |
| --- | --- |
| `index` | the id types, and `Per`, an array that can only be indexed by its own id |
| `proto` | identifiers, process data layouts and the valve word, as they are on the bus |
| `config` | a node's configuration: defaults, calibrations, the sanity check, the flash record and its supplement |
| `store` | what the node knows and what it is asked to do |
| `control`, `outputs`, `safety`, `relief`, `heating`, `heater` | one control tick: who may drive which output, and to what |
| `can` | frames, the object server and the broadcasts |
| `cpu`, `errors`, `leds`, `time` | accounts kept on the side |
| `board` | PWM channels, the step clock and the rail measurements, as values |
| `node` | which configuration a node boots on, and what its flash task does |
| `command_listener`, `canopen_interface`, `high_current_out`, `can_do_id`, `ereg`, `ext_adc`, `sensors` | the first generation of the firmware, still in use on older boards |
