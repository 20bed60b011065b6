[package]
name = "canfund"
version = "0.1.0"
edition = "2021"
publish = false

[dependencies]
candid = "=0.10.37"
ic-cdk = "=0.20.3"
ic-cdk-timers = "=1.0.0"
ic-ledger-types = "=0.16.0"
icrc-ledger-types = "=0.2.0"
futures = "=0.3.34"
serde = "*"
