//! The core of a URL shortener: short codes, the mapping from codes to URLs,
//! and what the service answers to a create and to a resolve request. Reading
//! requests, writing responses and talking to the key-value store are left to
//! the caller, who hands the outcomes in.

pub mod code;
pub mod error;
pub mod json;
pub mod laws;
pub mod long_url;
pub mod path;
pub mod response;
pub mod service;
pub mod std_specs;
pub mod store;
