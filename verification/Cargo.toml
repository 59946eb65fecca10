[package]
name = "order_service"
version = "0.1.0"
edition = "2021"
publish = false

[dependencies]
sha2 = "=0.10.9"
rand = "=0.8.8"
rand_pcg = "=0.3.1"
rand_seeder = "=0.2.3"
chrono = "=0.4.45"
serde = { version = "1", features = ["derive"] }
serde_json = "1"
actix-web = "4"
kafka = { version = "=0.10.0", default-features = false }
hbase-thrift = "=1.2.0"
thrift = "=0.17.0"
