[package]
name = "amberol"
version = "0.1.0"
edition = "2021"
publish = false

[dependencies]
color-thief = "0.2"
gtk4 = "0.4"
libadwaita = "0.1"
glib = "0.15"
gdk-pixbuf = "0.15"
gstreamer = "0.18"
gstreamer-audio = "0.18"
gtk-macros = "0.3"
log = "0.4"
once_cell = "1"
