[package]
name = "hyperswitch"
version = "0.1.0"
edition = "2021"
publish = false

[dependencies]
actix-http = "3"
actix-web = { version = "4", default-features = false, features = ["macros"] }
async-trait = "0.1"
error-stack = "0.4"
http = "0.2"
maud = { version = "0.27", features = ["actix-web"] }
mime = "0.3"
reqwest = { version = "0.11", default-features = false, features = ["multipart"] }
serde = { version = "1", features = ["derive"] }
serde_json = "1"
strum = { version = "0.26", features = ["derive"] }
tera = { version = "1", default-features = false }
time = { version = "0.3", features = ["formatting", "parsing", "macros"] }
url = "2"
utoipa = "4"
uuid = { version = "1", features = ["v4"] }
