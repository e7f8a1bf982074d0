[package]
name = "caldav_client"
version = "0.1.0"
edition = "2021"
publish = false

[dependencies]
minidom = "*"
url = "*"
strfmt = "*"
reqwest = { version = "*", default-features = false }
tokio = { version = "*", features = ["macros", "rt-multi-thread"] }
