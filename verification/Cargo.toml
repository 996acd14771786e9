[package]
name = "android_event_loop"
version = "0.1.0"
edition = "2021"
publish = false

[dependencies]
android-activity = { version = "=0.5.0-beta.1", features = ["native-activity"] }
log = "=0.4.35"
ndk = { version = "=0.8.0", features = ["rwh_05"] }
once_cell = "=1.21.4"
raw-window-handle = "=0.5.2"
