[package]
name = "vm2"
version = "0.1.0"
edition = "2021"
publish = false

[dependencies]
primitive-types = "0.12"
zk_evm_abstractions = "*"
zkevm_opcode_defs = "*"
