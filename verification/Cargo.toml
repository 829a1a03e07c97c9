[package]
name = "foxbox"
version = "0.1.0"
edition = "2021"
publish = false

[dependencies]
docopt = "=1.1.1"
serde_json = "=1.0.154"
iron = "=0.6.1"
hyper = "=0.10.16"
mount = "=0.4.0"
staticfile = "=0.5.0"
openssl = "=0.10.81"
openssl-sys = "=0.9.117"
ws = "=0.9.2"
mio = "=0.6.23"
log = "=0.4.34"
env_logger = "=0.11.11"
router = "=0.6.0"
multicast_dns = "=0.5.0"
