# probe_rs_avr

Host-side logic for AVR UPDI targets (ATmega4809) behind Microchip
`pkobn_updi` EDBG/nEDBG probes, verified with Verus.

- `src/` is the verified library. It builds and checks every EDBG/CMD3
  message (fragmentation into HID reports, reassembly of answers, sequence
  numbers, status checks), runs the decisions of a target query and of the
  session teardown, maps AVR addresses to memory regions, encodes and decodes
  memory words, and renders read-back memory (binary, Intel HEX, hex lists and
  tables) and the text report of a query.
- `app/` is the command-line program `edbg-avr-info`: it finds CMSIS-DAP
  probes through Linux hidraw, moves the reports, and prints what the library
  decides.
- `tests/` exercise the library on concrete values.
