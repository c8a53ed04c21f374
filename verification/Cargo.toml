[package]
name = "ast_codegen"
version = "0.1.0"
edition = "2021"
publish = false

[dependencies]
syn = { version = "2", features = ["full"] }
quote = "1"
proc-macro2 = "1"
serde = { version = "1", features = ["derive"] }
serde_json = "1"
bpaf = { version = "0.9", features = ["derive"] }
rayon = "1"
rustc-hash = "2"
oxc_allocator = "0.48"
oxc_span = "0.48"
oxc_diagnostics = "0.48"
