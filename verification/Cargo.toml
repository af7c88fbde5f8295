[package]
name = "mathquest"
version = "0.1.0"
edition = "2021"
publish = false

[dependencies]
rand = "0.6"
cgmath = "0.17"
stdweb = "0.4"
yew = "0.6"
