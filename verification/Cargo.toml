[package]
name = "physics_bridge"
version = "0.1.0"
edition = "2021"
publish = false

[dependencies]
rapier3d = "0.3"
nphysics3d = "0.18"
ncollide3d = "0.26"
nalgebra = "0.23"
