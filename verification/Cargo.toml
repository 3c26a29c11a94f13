[package]
name = "todo_list"
version = "0.1.0"
edition = "2021"
publish = false

[dependencies]
actix-web = "*"
actix-rt = "*"
rusqlite = "*"
r2d2 = "*"
r2d2_sqlite = "*"
