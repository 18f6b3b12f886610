//! Core of a deployment-workflow helper for a blockchain program toolchain.
//!
//! The library resolves per-network configuration: it maps a selected
//! [`cluster::Cluster`] to its configured RPC endpoint and signing-key file,
//! resolves symbolic wallet aliases, and composes the argument lists of the
//! subprocess commands that carry out deployments. All filesystem probing,
//! configuration-file discovery and process spawning happen outside this
//! crate; callers hand in what they observed (the discovered configuration,
//! whether a key file exists) and receive fully composed command lines back.

pub mod cluster;
pub mod config;
pub mod error;
pub mod solana_cmd;
mod strutil;
pub mod workspace;
