[package]
name = "el2_mmu"
version = "0.1.0"
edition = "2021"

[dependencies]
ruspiro-register = "=0.5.5"
