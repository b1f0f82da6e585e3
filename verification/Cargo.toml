[package]
name = "gravity_plane"
version = "0.1.0"
edition = "2021"
publish = false
