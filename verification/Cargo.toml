[package]
name = "kinton_agent"
version = "0.1.0"
edition = "2021"
publish = false

[dependencies]
httparse = "1"
json = "0.12"
hyper = "0.10"
mqttc = { version = "0.1", default-features = false }
netopt = { version = "0.1", default-features = false }
