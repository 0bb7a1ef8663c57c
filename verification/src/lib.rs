//! Bootstrap installer for a Python tool chain.
//!
//! The library holds the decision logic of the installer: probing output is
//! reduced to a raw version token, the token is parsed into a semantic
//! version triple, the triple is tested against the supported range, and a
//! requirement-manifest name is derived from it.  A state machine gates the
//! steps of the pipeline; the process plumbing around it lives outside the
//! library.

pub mod manifest;
pub mod pipeline;
pub mod probe;
pub mod version;
