[package]
name = "agent_rs_web"
version = "0.1.0"
edition = "2021"
publish = false

[dependencies]
anyhow = "1"
aws-sdk-s3 = { version = "1", default-features = false, features = ["behavior-version-latest", "rt-tokio"] }
axum = { version = "0.8", features = ["multipart"] }
bcrypt = "0.17"
chrono = { version = "0.4", default-features = false, features = ["serde", "std"] }
console_error_panic_hook = "0.1"
diesel = { version = "2.2", default-features = false, features = ["postgres_backend", "uuid", "chrono", "serde_json"] }
diesel-async = { version = "0.5", features = ["postgres", "bb8"] }
dotenvy = "0.15"
fred = "10"
futures = "0.3"
js-sys = "0.3"
leptos = { version = "0.8", features = ["ssr"] }
leptos_axum = "0.8"
leptos_meta = { version = "0.8", features = ["ssr"] }
leptos_router = { version = "0.8", features = ["ssr"] }
serde = { version = "1", features = ["derive"] }
serde_json = "1"
time = "0.3"
tokio = { version = "1", features = ["macros", "rt-multi-thread", "net", "sync"] }
tokio-stream = "0.1"
tonic = { version = "0.12", default-features = false, features = ["channel", "codegen", "prost"] }
tower-sessions = "0.14"
tower-sessions-redis-store = "0.16"
tracing = "0.1"
tracing-subscriber = { version = "0.3", default-features = false, features = ["std", "fmt", "registry", "env-filter"] }
uuid = { version = "1", features = ["v4", "serde"] }
wasm-bindgen = "0.2"
wasm-bindgen-futures = "0.4"
web-sys = { version = "0.3", features = ["Document", "Element", "Event", "EventTarget", "FormData", "Headers", "HtmlCollection", "HtmlFormElement", "HtmlTextAreaElement", "ReadableStream", "ReadableStreamDefaultReader", "Request", "RequestInit", "Response", "TextDecoder", "Window"] }
