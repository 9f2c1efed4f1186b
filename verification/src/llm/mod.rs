//! The local-LLM side of intent handling: the Ollama endpoint settings and
//! the rule-based reading of a command that stands in when the model is
//! unreachable or answers with something that is not an intent.

pub mod client;
pub mod intent;
