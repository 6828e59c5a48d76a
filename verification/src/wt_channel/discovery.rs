//! How the terminal is found.
use vstd::prelude::*;

verus! {

/// How the terminal was found.
#[derive(Debug, Clone, Copy, PartialEq, Eq, Structural)]
pub enum DiscoverySource {
    /// It answered an escape sequence.
    VtOsc,
    /// The environment names its COM class.
    ComClsid,
    /// It handed a pipe to this process.
    InheritedPipe,
    /// Its pipe is named outright.
    EnvVar,
}

/// How to reach the terminal.
#[derive(Debug)]
pub struct ConnectionInfo {
    pub pipe_name: String,
    pub token: String,
    pub source: DiscoverySource,
}

/// How to reach the terminal, from the variable `WT_COM_CLSID`.
pub fn discover_connection_info(clsid: Option<&str>) -> (info: Option<ConnectionInfo>)
    ensures
        match (clsid, info) {
            (Some(clsid), Some(info)) => info.pipe_name@ == clsid@ && info.token@.len() == 0
                && info.source == DiscoverySource::ComClsid,
            (None, None) => true,
            _ => false,
        },
{
    match clsid {
        Some(clsid) => Some(
            ConnectionInfo {
                pipe_name: clsid.to_owned(),
                token: String::new(),
                source: DiscoverySource::ComClsid,
            },
        ),
        None => None,
    }
}

} // verus!
