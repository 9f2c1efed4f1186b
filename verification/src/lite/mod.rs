//! Minimal nodes for embedded IoT devices.

use vstd::prelude::*;

verus! {

/// How a lite node operates.
#[derive(Debug, Clone, Copy, PartialEq, Eq, Structural)]
pub enum LiteNodeMode {
    /// Reads its sensors and sends.
    Sensor,
    /// Receives from BLE sensors and forwards to the kernel over TCP.
    Relay,
}

/// A minimal node for embedded devices.
pub struct LiteNode {
    pub mode: LiteNodeMode,
    pub id: String,
}

impl LiteNode {
    pub fn new(id: &str, mode: LiteNodeMode) -> (n: Self)
        ensures
            n.id@ == id@,
            n.mode == mode,
    {
        LiteNode { id: id.to_string(), mode }
    }
}

} // verus!
