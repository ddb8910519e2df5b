[package]
name = "lib_authentication"
version = "0.1.0"
edition = "2021"
publish = false

[dependencies]
actix-web = "=4.18.1"
aead = { version = "=0.5.2", features = ["alloc", "getrandom"] }
argon2 = "=0.5.3"
async-trait = "=0.1.92"
base64ct = { version = "=1.8.3", features = ["alloc", "std"] }
bytes = "=1.12.1"
chacha20poly1305 = "=0.10.1"
deadpool-redis = "=0.13.0"
env_logger = "=0.10.2"
futures = "=0.3.34"
log = "=0.4.34"
redis = "=0.23.0"
sea-orm = { version = "=0.11.3", default-features = false, features = ["macros", "with-uuid"] }
sea-orm-migration = { version = "=0.11.3", default-features = false }
serde = { version = "=1.0.229", features = ["derive"] }
sha2 = "=0.10.9"
thiserror = "=1.0.69"
uuid = { version = "=1.29.0", features = ["v4"] }
