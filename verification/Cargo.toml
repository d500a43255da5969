[package]
name = "file_sort"
version = "0.1.0"
edition = "2021"
publish = false

[dependencies]
regex = "1"
chrono = "0.4"
glob = "0.3"
shellexpand = "3"
log = "0.4"
serde = { version = "1", features = ["derive"] }
serde_yaml = "0.9"
anyhow = "1"
clap = { version = "4", features = ["cargo"] }
fern = { version = "0.7", features = ["colored"] }
fs_extra = "1"
image = { version = "0.25", default-features = false, features = ["jpeg", "png", "gif", "bmp", "tiff", "webp"] }
encoding_rs = "0.8"
tempfile = "3"
once_cell = "1"
colored = "2"
atty = "0.2"
human-panic = "2"
directories = "5"
dont_disappear = "3"
