use vstd::prelude::*;

verus! {

/// Protocol selector for capture filtering.
#[derive(Debug, Copy, Clone, PartialEq, Eq, Structural)]
pub enum Protocol {
    Tcp,
    Udp,
    All,
}

/// Output format selector for capture tools.
#[derive(Debug, Copy, Clone, PartialEq, Eq, Structural)]
pub enum CaptureFormat {
    Pcap,
    Pcapng,
}

/// CLI arguments for a capture run, as plain values.
///
/// Parsing and defaulting of the command line happens outside the library;
/// this struct carries the already-parsed values that the planning logic
/// consumes.
#[derive(Debug, Clone)]
pub struct Args {
    pub ssh_user: Option<String>,
    pub ssh_host: Option<String>,
    pub ssh_port: u16,
    pub jump_host: Option<String>,
    pub namespace: Option<String>,
    pub pod: Option<String>,
    pub container: Option<String>,
    pub port: Option<u16>,
    pub protocol: Protocol,
    pub iface: String,
    pub output: String,
    pub format: CaptureFormat,
    pub duration: Option<u64>,
    pub filter: Option<String>,
}

} // verus!
