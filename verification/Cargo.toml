[package]
name = "rtorrent_xmlrpc_bindings"
version = "0.1.0"
edition = "2021"
publish = false

[dependencies]
xmlrpc = { version = "0.15", default-features = false, features = ["http"] }
