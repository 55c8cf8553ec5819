//! TLS endpoints without a socket: a client endpoint, a server endpoint and the
//! secure stream between them, written so that every decision is made here and
//! only the moving of bytes over a transport is left to the caller.
//!
//! Each operation that would block on a transport instead returns a
//! [`stream::Poll`] saying what it needs next: bytes to be written, bytes to be
//! read, another call, or nothing more. The caller performs that one action
//! and calls again.
//!
//! Every function outside [`backend`] is verified: its contract is proved of
//! its body. The contracts of [`backend`] are what is assumed of the TLS
//! library.

pub mod address;
pub mod backend;
pub mod client;
pub mod credentials;
pub mod error;
pub mod server;
pub mod session;
pub mod stream;
