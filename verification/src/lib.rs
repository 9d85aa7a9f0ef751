//! A single-flow, zero-copy data server, split into a verified core and an
//! unverified I/O shell.
//!
//! The core models the two decision loops of the server as explicit state
//! machines: the splice transfer engine ([`transfer`]), which moves an
//! in-memory payload into a kernel pipe and from the pipe into a connected
//! socket in bounded chunks, and the single-shot listener ([`listener`]),
//! which binds an address, serves exactly one connection, and keeps
//! connection-scoped errors from terminating the server. The [`oci`] module
//! holds a plain-value model of an OCI runtime configuration and the verified
//! readers over it.
//!
//! The machines issue actions (create a pipe, move bytes, close, shut down)
//! and consume the kernel's answers as events; the caller performs each
//! action with real descriptors and feeds the outcome back. Every decision —
//! chunk sizing, short-write accounting, release of the pipe on every exit
//! path, the half-close after the last byte — is made here and verified.

pub mod listener;
pub mod oci;
pub mod transfer;
