[package]
name = "df_extension_types"
version = "0.1.0"
edition = "2021"
publish = false

[dependencies]
arrow = "=59.3.0"
arrow-schema = { version = "=59.3.0", features = ["canonical_extension_types"] }
datafusion-common = "=55.2.0"
datafusion-expr = "=55.2.0"

[dev-dependencies]
uuid = "=1.27.0"
