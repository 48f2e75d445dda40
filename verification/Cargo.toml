[package]
name = "early_alloc"
version = "0.1.0"
edition = "2021"
publish = false

[dependencies]
axallocator = "=0.2.0"
elf = "=0.8.0"
riscv = "=0.16.1"
axerrno = "=0.2.2"
