[package]
name = "manifest_merger"
version = "0.1.0"
edition = "2021"
publish = false

[dependencies]
git2 = { version = "=0.21.0", default-features = false, features = ["cred"] }
xmltree = "=0.12.0"
json = "=0.12.4"
threadpool = "=1.8.1"
regex = "=1.13.1"
reqwest = { version = "=0.13.5", default-features = false, features = ["query"] }
tokio = { version = "=1.53.2", features = ["macros", "rt-multi-thread"] }
futures = "=0.3.34"
async-recursion = "=1.2.0"
clap = { version = "=4.6.7", features = ["derive"] }
colored = "=3.1.1"
num_cpus = "=1.17.0"
