[package]
name = "meili"
version = "0.1.0"
edition = "2021"
publish = false

[dependencies]
app_dirs = "=1.2.1"
cidr-utils = "=0.5.11"
cocoa = "=0.27.0"
get_if_addrs = "=0.5.3"
glib = "=0.9.3"
gtk = "=0.8.1"
hostname = "=0.4.2"
humantime = "=2.4.0"
igd = "=0.12.1"
libappindicator = "=0.5.1"
libc = "=0.2.191"
objc = "=0.2.7"
objc-foundation = "=0.1.1"
objc_id = "=0.1.1"
serde = { version = "=1.0.229", features = ["derive"] }
shrust = "=0.0.7"
tempfile = "=3.27.0"
toml = "=0.5.11"
winapi = { version = "=0.3.9", features = ["errhandlingapi", "libloaderapi", "shellapi", "winuser", "wincon", "basetsd", "guiddef", "minwindef", "ntdef", "windef"] }
