[package]
name = "arm_vcpu"
version = "0.1.0"
edition = "2021"
publish = false

[dependencies]
aarch64-cpu = "*"
tock-registers = "*"
aarch64_sysreg = "*"
axerrno = "*"
axaddrspace = "*"
axvcpu = "*"
axdevice_base = "*"
percpu = "*"
log = "0.4"
spin = "*"
