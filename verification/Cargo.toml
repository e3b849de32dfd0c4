[package]
name = "car_sim"
version = "0.1.0"
edition = "2021"
publish = false

[dependencies]
specs = "=0.14.3"
ncollide2d = "=0.20.1"
ggez = "=0.5.1"
warmy = "=0.13.0"
log = "=0.4.34"
