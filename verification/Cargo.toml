[package]
name = "word_tutor"
version = "0.1.0"
edition = "2021"
publish = false

[dependencies]
base64 = "=0.23.1"
convert_case = "=0.12.0"
serde = { version = "=1.0.229", features = ["derive"] }
serde_json = "=1.0.154"
tokio = { version = "=1.54.1", features = ["macros", "rt-multi-thread", "net"] }
http = "=1.5.0"
lambda_http = "=1.3.2"
tonic = "=0.14.9"
tonic-reflection = "=0.14.9"
axum = "=0.8.9"
axum-core = "=0.5.6"
async-openai = { version = "=0.43.0", features = ["chat-completion", "audio", "image"] }
tower = { version = "=0.5.3", features = ["util"] }
anyhow = "=1.0.104"
utoipa = "=6.0.0"
utoipa-axum = "=0.3.0"
utoipa-swagger-ui = { version = "=10.0.2", features = ["axum", "vendored"] }
quote = "=1.0.47"
syn = { version = "=2.0.119", features = ["full"] }
proc-macro2 = "=1.0.107"
