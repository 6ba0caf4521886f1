//! A templated-completion synthesis pipeline: a per-user conversation state
//! machine, a template store and prompt builder that constrain a language
//! model's output format, and a streaming-response reader that assembles,
//! bounds, and times out a partial completion.

pub mod assets;
pub mod models;
pub mod openai_client;
pub mod prompts;
pub mod synthesizer;
pub mod text;
pub mod tracker;
