[package]
name = "iced_table2"
version = "0.14.0"
edition = "2021"
publish = false

[dependencies]
iced_core = "0.14"
iced_widget = "0.14"
