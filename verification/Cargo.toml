[package]
name = "oxi_test"
version = "0.1.0"
edition = "2021"
publish = false

[dependencies]
robusta_jni = "*"
rb-sys = "*"
