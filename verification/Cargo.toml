[package]
name = "gnvim_ui"
version = "0.1.0"
edition = "2021"
publish = false

[dependencies]
gdk = "=0.13.2"
glib = "=0.10.3"
gtk = { version = "=0.9.2", features = ["v3_22"] }
log = "=0.4.35"
neovim-lib = "=0.6.1"
# Held back: the rmpv that neovim-lib needs does not build with a later rmp.
rmp = "=0.8.9"
