[package]
name = "rtest"
version = "0.1.0"
edition = "2021"
publish = false

[dependencies]
chrono = "0.4"
clap = "3.2"
duct = "0.13"
env_logger = "0.7"
ignore = "0.4"
log = "0.4"
logging_timer = "1"
notify = "4"
remove_dir_all = "0.5"
tempfile = "3"
watchexec = "~1.14"
