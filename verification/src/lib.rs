//! Core logic of a launcher that runs a bundled application inside a private
//! mount namespace: it overlays the host root with a tmpfs, bind-mounts host
//! content into it, merges a bundled dependency store, switches roots and
//! replaces the process image.
//!
//! This crate holds the decision logic only: what to request from the kernel,
//! in which order, with which arguments, and how each failure is classified.
//! The process that performs the syscalls consumes the plans produced here.

pub mod bind;
pub mod decimal;
pub mod id_map;
pub mod namespace;
pub mod overlay;
pub mod paths;
pub mod probe;
pub mod run;
