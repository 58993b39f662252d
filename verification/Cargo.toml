[package]
name = "snmptools"
version = "0.1.0"
edition = "2021"
publish = false

[dependencies]
der-parser = "*"
libloading = "*"
netsnmp-sys-nocrypto = "*"
once_cell = "*"
