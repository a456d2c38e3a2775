[package]
name = "graph_util"
version = "0.1.0"
edition = "2021"
publish = false

[dependencies]
futures = "0.1"
graphql-parser = "0.2"
slog = "2"
tokio = "0.1"
tokio-retry = "0.2"
tokio-threadpool = "0.1"
