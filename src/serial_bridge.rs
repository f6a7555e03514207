//! Serial port bridge for a target that has none: the types keep the shape
//! that the core expects, and a bridge can never be made.

use vstd::prelude::*;
use vstd::string::StringExecFns;

verus! {

/// How a serial port would be bridged to the outside.
#[derive(Clone, Copy, Debug, PartialEq, Eq, Structural)]
pub enum SerialBridgeConfig {
    Pty,
    Tcp(u16),
    LocalTalk,
}

/// The state of an active bridge.
#[derive(Clone, Debug)]
pub enum SerialBridgeStatus {
    Pty(String),
    TcpListening(u16),
    TcpConnected(u16, String),
    LocalTalk(String),
}

/// The kind of a bridge error.
#[derive(Clone, Copy, Debug, PartialEq, Eq, Structural)]
pub enum BridgeErrorKind {
    Unsupported,
}

/// Why a bridge could not be made.
#[derive(Clone, Debug)]
pub struct BridgeError {
    pub kind: BridgeErrorKind,
    pub message: String,
}

pub open spec fn unsupported_message() -> Seq<char> {
    "Serial bridges are not supported on this target"@
}

impl SerialBridgeConfig {
    /// The text shown for a configuration.
    pub fn to_display_string(&self) -> (r: String)
        ensures
            r@ == "SerialBridgeConfig"@,
    {
        String::from_str("SerialBridgeConfig")
    }
}

impl SerialBridgeStatus {
    /// The text shown for a status.
    pub fn to_display_string(&self) -> (r: String)
        ensures
            r@ == "SerialBridgeStatus"@,
    {
        String::from_str("SerialBridgeStatus")
    }
}

/// A serial bridge; on this target none can be made.
pub struct SccBridge;

impl SccBridge {
    /// Always fails: serial bridges are unsupported here.
    pub fn new(config: &SerialBridgeConfig) -> (r: Result<Self, BridgeError>)
        ensures
            r matches Err(e) && e.kind == BridgeErrorKind::Unsupported && e.message@
                == unsupported_message(),
    {
        Err(
            BridgeError {
                kind: BridgeErrorKind::Unsupported,
                message: String::from_str("Serial bridges are not supported on this target"),
            },
        )
    }

    /// Discards what the serial controller sends.
    pub fn write_from_scc(&mut self, data: &[u8]) {
    }

    /// Nothing ever arrives for the serial controller.
    pub fn read_to_scc(&mut self) -> (r: Vec<u8>)
        ensures
            r@.len() == 0,
    {
        Vec::new()
    }

    /// Nothing ever happens on the bridge.
    pub fn poll(&mut self) -> (r: bool)
        ensures
            !r,
    {
        false
    }

    /// The fixed status: listening on port 0.
    pub fn status(&self) -> (r: SerialBridgeStatus)
        ensures
            r matches SerialBridgeStatus::TcpListening(p) && p == 0,
    {
        SerialBridgeStatus::TcpListening(0)
    }

    /// The bridge is never a LocalTalk bridge.
    pub fn is_localtalk(&self) -> (r: bool)
        ensures
            !r,
    {
        false
    }
}

} // verus!
