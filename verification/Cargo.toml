[package]
name = "uwb_notification"
version = "0.1.0"
edition = "2021"
publish = false

[dependencies]
jni = "=0.20.0"
log = "0.4"
