[package]
name = "c60"
version = "0.5.3"
edition = "2021"
publish = false

[dependencies]
Fullerene = "*"
anyslot = "*"
impl_sim = "*"
num = "0.4"
ode-rs = "*"
rand = "0.8"
regex = "1"
trimesh = "*"
