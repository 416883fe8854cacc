//! Core of the agent-rs web front end, without its network and database.
//!
//! Every decision that the server and the browser take stands here as a
//! function on plain values; the program around it reads requests, runs
//! statements and calls services, and hands the replies back.
pub mod text;
pub mod ident;
pub mod error;
pub mod json;
pub mod sse;
pub mod double;
pub mod conversations;
pub mod grpc;
pub mod minio_client;
pub mod middleware;
pub mod db;
pub mod auth;
pub mod routes;
