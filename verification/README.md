# weact_epaper_154_rs

Driver for the WeAct 1.54-inch 200x200 four-color (black, white, yellow, red)
e-paper display, verified with Verus.

- `src/` is the verified library: the color type, the packed framebuffer
  (four two-bit pixels per byte, most significant first) with pixel reads and
  writes, and the controller procedures (`reset`, `init`, `power_on`,
  `power_off`, `flush`) as state machines that name each SPI, pin or delay
  action and are told its outcome.
- `app/` carries those actions out on `embedded-hal` peripherals and
  implements `embedded-graphics` `DrawTarget` for the display.
- `tests/` runs the library on concrete values.
