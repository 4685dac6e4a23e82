[package]
name = "kani2"
version = "0.1.0"
edition = "2021"
publish = false

[dependencies]
bitmaps = "=3.2.1"
goblin = "=0.10.7"
lazy_static = "=1.5.1"
linked_list_allocator = "=0.10.6"
spin = "=0.9.9"
uefi = { version = "=0.28.0", features = ["alloc"] }
x86_64 = { version = "=0.14.13", default-features = false, features = ["instructions"] }
