# sgp40

A driver core for the Sensirion SGP40 gas sensor, verified with Verus.

- `src/` is the verified library: the command set (`Command`), command
  framing with CRC-8 protected argument words (`frame`), the CRC-8 check of
  reply words (`crc`), a state machine for one command exchange
  (`transaction`), and the driver instance with the humidity/temperature
  conversion, the temperature offset and the decoding of replies
  (`asynchronous`).
- `app/` is the asynchronous driver built on it: it performs the I²C writes,
  reads and waits that an exchange asks for, using `embedded-hal-async`.
- `tests/` exercises the library on concrete values.
