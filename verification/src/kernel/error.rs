//! Kernel error types.

use vstd::prelude::*;
use crate::text::{push_str, string_from_chars};

verus! {

#[derive(Debug, Clone, PartialEq, Eq)]
pub enum KernelError {
    AgentNotFound { id: String },
    BusSend,
    IntentParse(String),
    /// The random source or the clock failed.
    Unavailable,
}

/// The text an error displays.
pub open spec fn kernel_error_text(e: KernelError) -> Seq<char> {
    match e {
        KernelError::AgentNotFound { id } => "Agent not found: "@ + id@,
        KernelError::BusSend => "Bus send error"@,
        KernelError::IntentParse(m) => "Intent parse error: "@ + m@,
        KernelError::Unavailable => "Random source or clock unavailable"@,
    }
}

impl KernelError {
    /// The message of the error.
    pub fn message(&self) -> (r: String)
        ensures
            r@ == kernel_error_text(*self),
    {
        let mut v: Vec<char> = Vec::new();
        match self {
            KernelError::AgentNotFound { id } => {
                push_str(&mut v, "Agent not found: ");
                push_str(&mut v, id.as_str());
            },
            KernelError::BusSend => {
                push_str(&mut v, "Bus send error");
            },
            KernelError::IntentParse(m) => {
                push_str(&mut v, "Intent parse error: ");
                push_str(&mut v, m.as_str());
            },
            KernelError::Unavailable => {
                push_str(&mut v, "Random source or clock unavailable");
            },
        }
        string_from_chars(v.as_slice())
    }
}

} // verus!
