[package]
name = "rf_a"
version = "0.1.0"
edition = "2021"
publish = false

[dependencies]
arm-ffa = "*"
arm-psci = "*"
log = "*"
spin = "*"
thiserror = "*"
percore = "*"
aarch64-paging = "*"
