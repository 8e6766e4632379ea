[package]
name = "reporter"
version = "0.1.0"
edition = "2021"
publish = false

[dependencies]
indicatif = "=0.16.2"
# Not used by this crate itself. indicatif 0.16 asks for console without its
# default features and relies on the terminal type, which console 0.16 only
# builds with `std`; naming the feature here turns it on for indicatif.
console = { version = "=0.16.6", default-features = false, features = ["std"] }
