[package]
name = "hexview"
version = "0.1.0"
edition = "2021"
publish = false

[dependencies]
anyhow = "1"
getopts = "0.2"
hex = "0.4"
ncurses = "5"
pancurses = "0.17"
