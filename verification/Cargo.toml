[package]
name = "tts_loop"
version = "0.1.0"
edition = "2021"
publish = false

[dependencies]
v_htmlescape = "=0.17.0"

[dev-dependencies]
hound = "=3.5.1"
