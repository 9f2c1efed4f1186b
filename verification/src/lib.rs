//! NetGene OS core library: identities, intents, agents, governance and
//! the text and number handling they rest on.

pub mod text;
pub mod json;
pub mod ids;
pub mod kernel;
pub mod llm;

pub mod gene;
pub mod dao;
pub mod lite;
pub mod mobile;
pub mod k8s;
pub mod builder;
pub mod cli;
