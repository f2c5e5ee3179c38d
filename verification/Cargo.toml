[package]
name = "kiwi_sensors"
version = "0.1.0"
edition = "2021"
publish = false

[dependencies]
crc16 = "=0.4.0"
heapless = "=0.9.3"
embedded-hal = "=1.0.0"
embedded-hal-async = "=1.0.0"
uom = "=0.38.0"
libm = "=0.2.16"
dtoa = "=1.0.11"
kmdparse = "=0.0.3"
bitfield-struct = "=0.13.0"
aligned = "0.4"
