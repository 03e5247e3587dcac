[package]
name = "termusic"
version = "0.1.0"
edition = "2021"
publish = false

[dependencies]
shellexpand = "3"
viuer = "0.6"
tuirealm = "1"
tui-realm-treeview = "1"
