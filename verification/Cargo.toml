[package]
name = "hartvm"
version = "0.1.0"
edition = "2021"
publish = false

[dependencies]
fdt = "*"
linked_list_allocator = "*"
spinning_top = "*"
lock_api = "*"
