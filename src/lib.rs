pub mod chat;
pub mod client;
pub mod completions;
pub mod edits;
pub mod embeddings;
pub mod images;
pub mod models;
pub mod wire;

pub use client::OpenAIClient;
