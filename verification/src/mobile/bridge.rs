//! Live telemetry sessions for mobile clients.

use vstd::prelude::*;
use crate::ids::{Stamp, Timestamp, fresh_stamp, uuid_version};

verus! {

/// An encrypted telemetry session with one mobile client.
#[derive(Debug, Clone)]
pub struct MobileBridgeSession {
    pub session_id: u128,
    pub client_device_name: String,
    pub connected_at: Timestamp,
    pub is_encrypted: bool,
}

/// The bridge that mobile clients connect to.
pub struct MobileLiveBridge {
    server_port: u16,
}

impl MobileLiveBridge {
    pub closed spec fn port(&self) -> u16 {
        self.server_port
    }

    pub fn new(server_port: u16) -> (b: Self)
        ensures
            b.port() == server_port,
    {
        MobileLiveBridge { server_port }
    }

    /// Open an encrypted session for the named device, under a fresh ID,
    /// connected now; `None` where the random source or the clock fails.
    pub fn connect_client(&self, device_name: &str) -> (r: Option<MobileBridgeSession>)
        ensures
            r matches Some(s) ==> s.client_device_name@ == device_name@ && s.is_encrypted && uuid_version(
                s.session_id,
            ) == 4,
    {
        match fresh_stamp() {
            Some(stamp) => Some(self.connect_client_at(device_name, stamp)),
            None => None,
        }
    }

    /// The encrypted session for the named device under the ID of `stamp`,
    /// connected at its instant.
    pub fn connect_client_at(&self, device_name: &str, stamp: Stamp) -> (s: MobileBridgeSession)
        ensures
            s.client_device_name@ == device_name@,
            s.is_encrypted,
            s.session_id == stamp.id,
            s.connected_at == stamp.at,
    {
        MobileBridgeSession {
            session_id: stamp.id,
            client_device_name: device_name.to_string(),
            connected_at: stamp.at,
            is_encrypted: true,
        }
    }

    pub fn server_port(&self) -> (r: u16)
        ensures
            r == self.port(),
    {
        self.server_port
    }
}

} // verus!
