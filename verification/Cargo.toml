[package]
name = "win_token"
version = "0.1.0"
edition = "2021"
publish = false

[dependencies]
winapi = { version = "0.3", features = ["handleapi", "processthreadsapi", "securitybaseapi", "winnt", "errhandlingapi", "winerror"] }
