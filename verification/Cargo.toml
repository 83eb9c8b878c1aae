[package]
name = "dyk_resolver"
version = "0.1.0"
edition = "2021"
publish = false

[dependencies]
mediawiki = "=0.5.1"
tokio = { version = "*", features = ["macros", "rt-multi-thread"] }
