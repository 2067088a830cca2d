//! What the dashboard is set up with.

use vstd::prelude::*;

verus! {

#[derive(Debug, Clone)]
pub struct Config {
    /// Where the inference server's API listens.
    pub ollama_url: String,
    /// The time between two polls, in milliseconds.
    pub update_interval_ms: u64,
    /// The number of status messages that the log keeps.
    pub max_status_messages: usize,
}

impl Default for Config {
    fn default() -> (config: Self)
        ensures
            config.ollama_url@ == "http://localhost:11434"@,
            config.update_interval_ms == 1000,
            config.max_status_messages == 100,
    {
        Config {
            ollama_url: "http://localhost:11434".to_owned(),
            update_interval_ms: 1000,
            max_status_messages: 100,
        }
    }
}

} // verus!
