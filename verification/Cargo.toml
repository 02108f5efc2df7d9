[package]
name = "asm_repl"
version = "0.1.0"
edition = "2021"
publish = false

[dependencies]
iced-x86 = { version = "1", default-features = false, features = ["std", "code_asm"] }
colored = "2"
rustyline = "*"
syntect = { version = "5", default-features = false, features = ["default-fancy"] }
