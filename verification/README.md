# urm37

Driver logic for the DFRobot URM37 V4.0 ultrasonic distance sensor, verified
with Verus.

- `src/` is the verified library: the 4-byte UART frame format (building,
  checksum checking, decoding of distance, temperature and EEPROM
  responses), the decision a driver takes on each outcome of a transaction,
  the PWM echo-to-distance conversion and the analog averaging and integer
  conversions. Every `Frame` carries a valid checksum (a type invariant).
- `app/` performs the I/O on `embedded-io`, `embedded-io-async` and
  `embedded-hal` transports and holds the floating-point conversions.
- `tests/` runs the library on concrete values.
