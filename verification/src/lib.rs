//! The Vera HTTP API server: what it decides, and what it answers.
//!
//! The server exposes inference endpoints in formats that clients already speak:
//!
//! ```text
//! POST /v1/embeddings   OpenAI format
//! POST /v1/rerank       Cohere/Jina format
//! GET  /v1/health       liveness and model info
//! ```
//!
//! This crate holds the rules of the server, each with a proved contract: who is let in, what a
//! request is answered, in which order documents are ranked, which models are loaded, shared and
//! dropped and when, and how the server starts. Sockets, clocks, locks and the models themselves
//! belong to the caller, who does what the functions here ask for and tells them what came of it.

pub mod auth;
pub mod handlers;
pub mod http;
pub mod providers;
pub mod ranking;
pub mod serve;
pub mod span;
pub mod startup;
pub mod state;
pub mod text;
pub mod types;

pub use startup::run_server;
pub use state::AppState;
