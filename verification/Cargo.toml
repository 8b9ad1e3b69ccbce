[package]
name = "spine_node"
version = "0.1.0"
edition = "2021"
publish = false

[dependencies]
macroquad = "0.4"
rusty_spine = "*"
