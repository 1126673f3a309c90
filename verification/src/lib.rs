//! Cluster PKI material management: certificate authority and leaf
//! certificate issuance through an external CA tool, envelope encryption of
//! private key bytes through a remote key-management service, a registry that
//! guarantees plaintext files are cleaned up when an operation's scope ends,
//! and a resumable key-rotation ledger.
//!
//! All decisions, formats and bookkeeping are verified here; subprocess,
//! filesystem and network work is done by the surrounding application, which
//! hands plain values in and takes plain values back.

pub mod admin;
pub mod base64;
pub mod cluster;
pub mod dependencies;
pub mod encryption;
pub mod error;
pub mod json;
pub mod key;
pub mod log;
pub mod pki;
pub mod process;
pub mod rotation;
pub mod scoped;
