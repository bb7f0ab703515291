//! Remote session core: target parsing, the authentication strategy chain,
//! the credential prompt watcher, output normalisation, error classification
//! and file transfer over an SSH session.
pub mod error;
pub mod target;
pub mod lines;
pub mod matcher;
pub mod watcher;
pub mod chain;
pub mod transfer;
pub mod classify;
pub mod native;
pub mod invocation;
