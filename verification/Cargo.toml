[package]
name = "gxi"
version = "0.1.0"
edition = "2021"
publish = false

[dependencies]
serde_json = "1"
gtk = "0.8"
gdk = "0.12"
gio = "0.8"
glib = "0.9"
pango = "0.8"
cairo-rs = "0.8"
pangocairo = "0.9"
glib-sys = "0.9"
gobject-sys = "0.9"
gtk-sys = "0.9"
libc = "0.2"
log = "0.4"
env_logger = "0.7"
clap = "2"
dirs-next = "1"
servo-fontconfig = "*"
