[package]
name = "set_expr_planner"
version = "0.1.0"
edition = "2021"
publish = false

[dependencies]
arrow = { version = "54", default-features = false }
datafusion-common = { version = "46", default-features = false }
datafusion-doc = "46"
datafusion-expr = { version = "46", default-features = false }
datafusion-macros = "46"
sqlparser = { version = "0.54", default-features = false, features = ["std"] }
