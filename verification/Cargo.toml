[package]
name = "apic"
version = "0.1.0"
edition = "2021"
publish = false

[dependencies]
x86 = "0.52"
bit_field = "0.10"
fdt = "0.1"
rand = "0.8"
ratatui = "*"
