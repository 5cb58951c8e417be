[package]
name = "zk_service"
version = "0.1.0"
edition = "2021"
publish = false

[dependencies]
tiny-keccak = { version = "=2.0.2", features = ["sha3"] }
bincode = "=1.3.3"
serde = { version = "1", features = ["derive"] }
actix-web = { version = "4", default-features = false, features = ["macros"] }
dotenv = "0.15"
ethers = { version = "2", default-features = false }
sp1-zkvm = { version = "=3.4.0", default-features = false, features = ["lib"] }
