//! Process configuration: the listeners to run and the reporter's import
//! endpoint.

use vstd::prelude::*;

verus! {

pub struct Config {
    pub listeners: Vec<ListenerType>,
    pub reporter: ReporterConfig,
}

pub struct ReporterConfig {
    pub vm_import_url: String,
}

pub enum ListenerType {
    UDP(UDPConfig),
    TCP(TCPConfig),
}

impl ListenerType {
    /// The port the listener binds to.
    pub open spec fn spec_port(&self) -> u16 {
        match self {
            ListenerType::UDP(cfg) => cfg.port,
            ListenerType::TCP(cfg) => cfg.port,
        }
    }

    /// Returns the port the listener binds to.
    pub fn port(&self) -> (p: u16)
        ensures
            p == self.spec_port(),
    {
        match self {
            ListenerType::UDP(cfg) => cfg.port,
            ListenerType::TCP(cfg) => cfg.port,
        }
    }
}

/// The buffer size used when a listener's configuration names none.
pub fn default_buffer_size() -> (r: u16)
    ensures
        r == 4096,
{
    4096
}

pub struct UDPConfig {
    pub port: u16,
    pub buffer_size: u16,
}

pub struct TCPConfig {
    pub port: u16,
    pub buffer_size: u16,
}

} // verus!
