[package]
name = "rustyimage"
version = "0.1.0"
edition = "2021"
publish = false

[dependencies]
png = "0.17"
image = { version = "0.25", default-features = false, features = ["gif", "png", "jpeg", "webp", "bmp", "ico", "tiff", "tga"] }
resvg = { version = "0.44", default-features = false, features = ["raster-images"] }
tiny-skia = "0.11"
vtracer = "0.6"
eframe = { version = "0.30", default-features = false, features = ["default_fonts", "glow", "x11"] }
egui = "0.30"
open = "5"
