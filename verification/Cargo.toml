[package]
name = "rknpu-starry-adapter"
version = "0.1.0"
edition = "2021"
publish = false

[dependencies]
axerrno = "*"
axfs-ng-vfs = "*"
axklib = "*"
event-listener = "*"
lazy_static = "*"
log = "*"
rdrive = "*"
rknpu = "*"
rockchip-pm = "*"
