//! Secret management for SSH credentials and a host inventory, driven by an
//! operator and by an agent over a line-oriented tool protocol.
//!
//! - `secret`: AES-256-GCM encryption of stored credentials under a master key.
//! - `vault`: migration of legacy plaintext and the ordering of key rotation.
//! - `model`: machines, accounts, logs, constraints, and masked listings.
//! - `knowledge`: matching probe failures against a pattern knowledge base.
//! - `diagnose`: probe targets, probe arguments and diagnosis reports.
//! - `protocol`: request dispatch, tool catalog, argument checks and responses.
//! - `hexcode`, `text`: hexadecimal and string helpers.

pub mod diagnose;
pub mod hexcode;
pub mod knowledge;
pub mod model;
pub mod protocol;
pub mod secret;
pub mod text;
pub mod vault;
