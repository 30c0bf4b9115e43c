[package]
name = "git-igitt"
version = "0.1.18"
edition = "2021"
publish = false

[dependencies]
clap = { version = "4", features = ["cargo"] }
crossterm = "0.25"
git2 = { version = "0.15", default-features = false }
git-graph = "0.5"
itertools = "0.10"
lazy_static = "1"
muncher = "0.7"
platform-dirs = "0.3"
syntect = "5"
textwrap = { version = "0.16", default-features = false }
toml = "0.5"
tui = { version = "0.19", default-features = false, features = ["crossterm"] }
unicode-width = "0.1"
yansi = "0.5"
