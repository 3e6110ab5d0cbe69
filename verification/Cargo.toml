[package]
name = "servo_gtk"
version = "0.1.0"
edition = "2021"
publish = false

[dependencies]
gdk = "=0.19.0"
gdk-sys = "=0.19.0"
# The callback that glib-itc's receiver takes returns this version's `Continue`.
glib = "=0.6.1"
glib-itc = "=0.5.0"
gtk = "=0.19.0"
keyboard-types = "=0.8.3"
shared_library = "=0.1.9"
