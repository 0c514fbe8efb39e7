[package]
name = "comment_ranking"
version = "0.1.0"
edition = "2021"
publish = false

[dependencies]
rand = "0.8"
rand_distr = "0.4"
csv = "1"
strum = "0.26"
strum_macros = "0.26"
