[package]
name = "huawei_solar"
version = "0.1.0"
edition = "2021"
publish = false

[dependencies]
modbus = "*"
chrono = "*"
postgres = "*"
