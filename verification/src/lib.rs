//! Release-version resolution and container-registry tag validation.
//!
//! The library resolves, for each configured service, the latest upstream
//! release version from a source-control provider (GitHub, GitLab or
//! Codeberg), substitutes that version into an image-tag template, and
//! decides, from the registry's responses, whether the resulting tag exists
//! in the target container registry.  All branching logic — provider
//! dispatch, authentication-scheme selection, content-negotiated manifest
//! checking, and per-service failure isolation — is verified; the
//! surrounding I/O (HTTP, files, environment) is left to the caller, which
//! feeds responses in as plain values.

pub mod config;
pub mod errors;
pub mod git;
pub mod registry;
pub mod service;
pub mod strutil;
