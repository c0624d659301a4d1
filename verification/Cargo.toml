[package]
name = "backup_report"
version = "0.1.0"
edition = "2021"
rust-version = "1.95"
publish = false

[dependencies]
exitcode = "=1.1.2"
log = "=0.4.34"
serde_json = "=1.0.154"
simplelog = "=0.12.2"
# Not used by name. teloxide depends on it, and 0.1.1 is its last release
# that builds with the toolchain given under rust-version.
takecell = "=0.1.1"
teloxide = "=0.17.0"
# simplelog's format_description! expands to paths that begin with ::time,
# so the program that sets up the logger needs the crate by name.
time = "=0.3.55"
tokio = { version = "=1.54.1", features = ["macros", "rt-multi-thread"] }
toml = "=1.1.8"
