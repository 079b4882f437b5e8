rustchip
========

A CHIP-8 interpreter. `src/` is the verified library: the machine state
(`cpu`), its model (`state`), opcode decoding (`instruction`), sprite drawing
(`sprite`), the host-keyboard to keypad mapping (`keypad`) and properties that
relate instructions to one another (`laws`). `app/` holds the SFML front end:
the window, the keyboard scan, the ROM file read and the main loop.

Run `cargo run <rompath>` with SFML/CSFML installed. Keys map to the keypad as
`1 2 3 4 / Q W E R / A S D F / Z X C V` -> `1 2 3 C / 4 5 6 D / 7 8 9 E / A 0 B F`.
`Alt+R` resets the machine.
