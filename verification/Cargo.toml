[package]
name = "slimeu"
version = "0.1.0"
edition = "2021"
publish = false

[dependencies]
bitflags = "=2.13.2"
enum-map = "=3.1.0"
fxhash = "=0.2.1"
glam = "=0.9.5"
hecs = "=0.11.2"
ldtk_rust = "=0.6.0"
log = "=0.4.34"
macroquad = "=0.4.16"
miniquad = "=0.4.11"
resphys = "=0.1.0"
ringbuffer = "=0.16.0"
simple_logger = "=5.2.0"
