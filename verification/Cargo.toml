[package]
name = "sqlexec"
version = "0.1.0"
edition = "2021"
publish = false

[dependencies]
datafusion = { version = "=17.0.0", default-features = false }
# Not used directly: holds chrono below 0.4.40, whose `Datelike::quarter`
# makes arrow-arith 31's calls of `ChronoDateExt::quarter` ambiguous.
chrono = "=0.4.39"
uuid = "=1.29.0"
thiserror = "=1.0.69"
tonic = { version = "=0.8.3", default-features = false }
async-trait = "=0.1.92"
