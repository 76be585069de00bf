[package]
name = "packetmon"
version = "0.1.0"
edition = "2021"
publish = false

[dependencies]
clap = "2"
crossterm = "0.28"
pcap = "*"
ratatui = "0.29"
