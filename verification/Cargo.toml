[package]
name = "mercure"
version = "0.1.0"
edition = "2021"
publish = false

[dependencies]
biscuit = "*"
secrecy = "*"
uri-template-system = "*"
url = "*"
reqwest = { version = "*", default-features = false }

[dev-dependencies]
serde_html_form = "*"
