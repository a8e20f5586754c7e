//! A small storage library: opaque byte blobs written to and read from either
//! a local directory or a remote object-storage bucket.
//!
//! The verified core is the write path for the remote backend: a detached
//! upload with a bounded number of attempts and exponential backoff between
//! failures, modelled as a step machine that an unverified driver feeds with
//! the outcome of each put call. Around it stand the two adapters: a local
//! one over a pre-checked directory, and a remote one holding a reusable
//! bucket handle, a credential set and the retry budget.

pub mod config;
pub mod error;
pub mod local;
pub mod remote;
pub mod retry;
