[package]
name = "injector_core"
version = "0.1.0"
edition = "2021"
publish = false

[dependencies]
dll-syringe = "*"
libmem = "*"
dinvoke = "*"
dinvoke_data = "*"
winsafe = "*"

[dev-dependencies]
iced-x86 = { version = "*", default-features = false, features = ["code_asm", "std"] }
pelite = "*"
widestring = "*"
