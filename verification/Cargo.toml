[package]
name = "trait_impl_stubs"
version = "0.1.0"
edition = "2021"
publish = false

[dependencies]
ra_ap_syntax = "=0.0.320"
ra_ap_hir = "=0.0.320"
