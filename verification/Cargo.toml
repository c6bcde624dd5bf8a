[package]
name = "dyn_wallpaper"
version = "0.1.0"
edition = "2021"
publish = false

[dependencies]
alphanumeric-sort = "*"
chrono = "0.4"
clap = "2"
image = { version = "*", default-features = false, features = ["jpeg", "png"] }
strfmt = "*"
sun-times = "*"
winapi = { version = "0.3", features = ["winuser"] }
