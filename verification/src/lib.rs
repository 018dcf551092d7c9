//! Local wallet-signing accelerator core: a password-gated identity store
//! with a deterministic public-key fingerprint, a capability URL built from
//! that fingerprint, and a request gateway that validates inbound signing
//! requests and normalises engine outcomes into one protocol error shape.

pub mod errors;
pub mod identity;
pub mod lifecycle;
pub mod rpc;
pub mod service;
pub mod tls;
