//! Concurrent multi-repository merge engine.
//!
//! Given a baseline repository list and up to two upstream manifests, this
//! library resolves which upstream applies to each local checkout
//! ([`resolver`]), builds one immutable merge job per matching path, models
//! the per-repository git merge sequence as a verified state machine
//! ([`machine`]), and tracks a batch of jobs so that every job is executed
//! exactly once and yields exactly one outcome, whatever the worker pool
//! looks like ([`batch`]). Around the engine stand the manifest rules it
//! feeds on: repository and remote tables read from manifest children
//! ([`xml`], [`remotes`]), the rewriting of upstream and default manifests
//! ([`xml`]), the device dependency rules ([`deps`], [`devices`],
//! [`local_manifest`]), and the engine's deterministic messages
//! ([`messages`]).
//!
//! All I/O (git, XML and JSON files, HTTP, processes) lives outside this
//! crate and hands plain values in and out; the one outside computation the
//! library calls itself is the regex match of the device repository pattern.

pub mod batch;
pub mod deps;
pub mod devices;
pub mod local_manifest;
pub mod machine;
pub mod manifest;
pub mod messages;
pub mod model;
pub mod remotes;
pub mod resolver;
pub mod strings;
pub mod table;
pub mod xml;
