[package]
name = "czkawka_gui"
version = "0.1.0"
edition = "2021"
publish = false

[dependencies]
czkawka_core = "=2.0.0"
directories-next = "=2.0.0"
gtk = "=0.9.2"
