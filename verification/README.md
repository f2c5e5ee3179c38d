# kiwi_sensors

Verified core of the Kiwi sensor board firmware.

- `src/` — the library, checked by Verus: register encodings and raw-data
  parsing of the BME680, BMI323, BMP390, MMC5983MA and MS5607 sensors, the
  MS5607 fixed-point compensation and PROM CRC-4, the BMI323 auto-ranging
  rule and gyroscope self-calibration sequence, the MMC5983MA bridge-offset
  removal, bounded status polling, the flash layout of the device
  configuration with its CRC16 (any one-byte change is detected), the
  console's line editor and command handling, and the data-rate counter of
  the measurement stream.
- `app/` — the code around it: bus transfers over `embedded-hal`,
  floating-point unit conversions, flash access, and the console's command
  grammar and text output.
- `tests/` — tests of the library on concrete values.
