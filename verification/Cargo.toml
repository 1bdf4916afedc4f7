[package]
name = "triangle_surface"
version = "0.1.0"
edition = "2021"
publish = false

[dependencies]
gdk = "=0.18.2"
gl = "=0.14.0"
gtk = "=0.18.2"
libloading = "=0.8.9"
sokol = "=0.3.0"
