[package]
name = "vault_provider_aws"
version = "0.1.0"
edition = "2021"
publish = false

[dependencies]
async-trait = "=0.1.92"
aws-credential-types = "=1.3.1"
aws-sdk-secretsmanager = { version = "=1.123.0", default-features = false }
aws-sdk-sts = { version = "=1.122.0", default-features = false }
aws-smithy-runtime-api = { version = "=1.19.1", features = ["client"] }
aws-smithy-types = "=1.9.0"
aws-types = "=1.7.0"
lockset_vault_provider = "=0.1.1"
serde = { version = "=1.0.229", features = ["derive"] }
serde_json = "=1.0.154"
zeroize = { version = "=1.9.1", features = ["serde"] }
