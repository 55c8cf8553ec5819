//! The failures an endpoint reports.

use vstd::prelude::*;

verus! {

/// The part of a TLS session's life in which a failure was met.
#[derive(Clone, Copy, Debug, PartialEq, Eq, Structural)]
pub enum Stage {
    Handshake,
    Data,
    Close,
}

/// What went wrong in an endpoint operation.
#[derive(Debug, PartialEq, Eq)]
pub enum EndpointError {
    /// The transport failed: connecting, reading, writing, accepting or binding.
    IoFailed(String),
    /// A certificate, a key, a server name or a trust store could not be used.
    ConfigInvalid(String),
    /// The key material held no PKCS#8 private key.
    NoPrivateKey,
    /// The TLS session reported a failure, met in the given stage.
    TlsFailed(String, Stage),
    /// The operation needs a transport or a TLS session that is not there.
    NotConnected,
    /// The peer closed the connection while a write was in progress.
    ClosedDuringWrite,
}

/// An [`EndpointError`] as a mathematical value: the same variants, with each
/// reason as a sequence of characters.
pub enum Fault {
    IoFailed(Seq<char>),
    ConfigInvalid(Seq<char>),
    NoPrivateKey,
    TlsFailed(Seq<char>, Stage),
    NotConnected,
    ClosedDuringWrite,
}

impl View for EndpointError {
    type V = Fault;

    open spec fn view(&self) -> Fault {
        match *self {
            EndpointError::IoFailed(reason) => Fault::IoFailed(reason@),
            EndpointError::ConfigInvalid(reason) => Fault::ConfigInvalid(reason@),
            EndpointError::NoPrivateKey => Fault::NoPrivateKey,
            EndpointError::TlsFailed(reason, stage) => Fault::TlsFailed(reason@, stage),
            EndpointError::NotConnected => Fault::NotConnected,
            EndpointError::ClosedDuringWrite => Fault::ClosedDuringWrite,
        }
    }
}

/// The text of a fault: the reason it carries, or a fixed sentence where it
/// carries none.
pub open spec fn fault_text(fault: Fault) -> Seq<char> {
    match fault {
        Fault::IoFailed(reason) => reason,
        Fault::ConfigInvalid(reason) => reason,
        Fault::NoPrivateKey => "No private keys found"@,
        Fault::TlsFailed(reason, _) => reason,
        Fault::NotConnected => "No connection established"@,
        Fault::ClosedDuringWrite => "Connection closed during write"@,
    }
}

impl EndpointError {
    /// A copy of this error.
    pub fn duplicate(&self) -> (copy: EndpointError)
        ensures
            copy@ == self@,
    {
        match self {
            EndpointError::IoFailed(reason) => EndpointError::IoFailed(reason.clone()),
            EndpointError::ConfigInvalid(reason) => EndpointError::ConfigInvalid(reason.clone()),
            EndpointError::NoPrivateKey => EndpointError::NoPrivateKey,
            EndpointError::TlsFailed(reason, stage) => EndpointError::TlsFailed(
                reason.clone(),
                *stage,
            ),
            EndpointError::NotConnected => EndpointError::NotConnected,
            EndpointError::ClosedDuringWrite => EndpointError::ClosedDuringWrite,
        }
    }

    /// The error as text, for a log line or a message to the user.
    pub fn message(&self) -> (text: String)
        ensures
            text@ == fault_text(self@),
    {
        match self {
            EndpointError::IoFailed(reason) => reason.clone(),
            EndpointError::ConfigInvalid(reason) => reason.clone(),
            EndpointError::NoPrivateKey => "No private keys found".to_owned(),
            EndpointError::TlsFailed(reason, _) => reason.clone(),
            EndpointError::NotConnected => "No connection established".to_owned(),
            EndpointError::ClosedDuringWrite => "Connection closed during write".to_owned(),
        }
    }

    /// The stage of a TLS failure; `None` for every other error.
    pub fn stage(&self) -> (stage: Option<Stage>)
        ensures
            stage == match self@ {
                Fault::TlsFailed(_, stage) => Some(stage),
                _ => None,
            },
    {
        match self {
            EndpointError::TlsFailed(_, stage) => Some(*stage),
            _ => None,
        }
    }
}

} // verus!
