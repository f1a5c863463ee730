# mfc_reader_sim

A MIFARE Classic 1K reader simulator with a fullscreen status window: yellow while it waits
for a card, green when the card authenticates with the expected key A and its block 4 holds
the expected data, red when the card is refused.

- `src/` is the verified library (Verus): the command frames (`card`), the driver's errors
  (`error`), what selecting a card yields (`target`), the reader's cycle as a state machine
  with its proved properties (`reader`), and the window's reaction to events (`window`).
- `app/` is the program around it: the NFC driver (`nfc1`), the window and its drawing
  (`winit`, `wgpu`, `pollster`), the colour channel (`watch`), and the Python extension that
  lets a script open the window and set its colour (`pyo3`).
- `tests/` runs the library on concrete values.
