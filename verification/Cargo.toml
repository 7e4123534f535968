[package]
name = "hidpp"
version = "0.1.0"
edition = "2021"
publish = false

[dependencies]
tinyvec = "=1.13.3"
tinystr = "=0.8.5"
bytemuck = { version = "=1.25.2", features = ["extern_crate_alloc"] }
bilge = "=0.5.0"
crossbeam = "=0.8.5"
deadpool = { version = "=0.13.1", default-features = false, features = ["unmanaged"] }
pollster = "=1.0.1"
hidapi = { version = "=2.6.7", default-features = false, features = ["linux-native-basic-udev"] }
