[package]
name = "trawler"
version = "0.1.0"
edition = "2021"
publish = false

[dependencies]
histogram-sampler = "=0.5.0"
rand = "=0.8.8"
hdrhistogram = "=7.6.0"
crossbeam-channel = "=0.5.17"
