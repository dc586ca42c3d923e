[package]
name = "dynamips"
version = "0.1.0"
edition = "2021"
publish = false

[dependencies]
circular-buffer = "=1.2.1"
gcd = "=2.3.0"
libc = "=0.2.191"
libc_alloc = "=1.0.7"
sptr = "=0.3.2"
static_assertions = "=1.1.0"
tock-registers = "=0.10.1"
