//! Resolves short script identifiers to script contents stored in git
//! repositories, reachable either through a saved alias or a raw git URL.
//!
//! The crate holds the verified core: the identifier grammar, the credential
//! model, the cache-directory derivation and the fetch protocols for the
//! generic-git, GitHub and GitLab backends.  All file, network and process
//! work is left to the embedding program, which drives the decision
//! procedures defined here.

pub mod cache;
pub mod config;
pub mod errors;
pub mod git;
pub mod github;
pub mod gitlab;
pub mod http;
pub mod json;
pub mod repo;
pub mod source;
pub mod text;
pub mod urlx;
