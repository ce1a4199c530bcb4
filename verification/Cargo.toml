[package]
name = "camview"
version = "0.1.0"
edition = "2021"
publish = false

[dependencies]
chrono = { version = "0.4", default-features = false, features = ["clock"] }
fast_image_resize = "5"
png = "0.17"
rand = "0.8"
rand_distr = "0.4"
rgb = "0.8"

[dev-dependencies]
num-traits = "0.2"
