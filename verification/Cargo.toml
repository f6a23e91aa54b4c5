[package]
name = "hello_web"
version = "0.1.0"
edition = "2021"
publish = false

[dependencies]
actix-cors = "=0.7.2"
actix-router = "=0.5.4"
actix-web = { version = "=4.18.1", default-features = false, features = ["macros"] }
log = "=0.4.34"
log4rs = { version = "=1.4.0", default-features = false, features = ["console_appender", "file_appender", "pattern_encoder"] }
