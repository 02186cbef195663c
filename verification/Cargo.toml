[package]
name = "rosu_pp_ffi"
version = "0.1.0"
edition = "2021"
publish = false

[dependencies]
rosu-pp = "=3.1.0"
interoptopus = "=0.14.27"
bytemuck = "*"
