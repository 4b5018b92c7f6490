[package]
name = "core_pipeline"
version = "0.1.0"
edition = "2021"
publish = false

[dependencies]
bevy_app = { version = "0.12", default-features = false }
bevy_asset = { version = "0.12", default-features = false }
bevy_ecs = { version = "0.12", default-features = false }
bevy_macro_utils = { version = "0.12", default-features = false }
encase_derive_impl = { version = "0.6", default-features = false }
