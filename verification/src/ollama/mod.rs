//! The inference server: the process that runs it, and what its API says.

pub mod client;
pub mod models;
pub mod process;

pub use client::OllamaClient;
pub use models::OllamaModel;
pub use process::OllamaProcess;
