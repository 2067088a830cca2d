//! Telemetry and supervision core of a terminal dashboard for a local
//! inference server.
//!
//! The library decides and its caller acts. The GPU vendor probes and their
//! resolver turn what the kernel interface holds into one stats shape; the
//! supervisor says how the server process is started and stopped, first
//! gracefully and then by force; the dashboard state says what a key press, a
//! tick or the outcome of a request changes, and what to do next. Reading
//! files, sending signals and requests, sleeping and drawing are the
//! caller's part.

pub mod app;
pub mod config;
pub mod events;
pub mod gpu;
pub mod ollama;
pub mod status;
pub mod text;
pub mod ui;

// Re-export commonly used types
pub use app::App;
pub use config::Config;
pub use gpu::GpuMonitor;
pub use ollama::{OllamaClient, OllamaModel, OllamaProcess};
