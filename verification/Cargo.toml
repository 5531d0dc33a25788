[package]
name = "dias"
version = "0.1.0"
edition = "2021"
publish = false

[dependencies]
itertools = "*"
polars = { version = "0.46", default-features = false, features = ["lazy", "strings", "temporal", "dtype-date", "dtype-datetime", "dtype-time", "dtype-i8", "dtype-i16", "is_in", "csv", "regex", "semi_anti_join", "cross_join", "rows", "fmt"] }

[dev-dependencies]
chrono = "0.4"
