//! Document retrieval over an embedded transactional key-value store:
//! request routing, the read session against the store, error mapping and
//! response composition, each stated and proved over a mathematical model.

pub mod config;
pub mod laws;
pub mod reply;
pub mod route;
pub mod session;
pub mod text;
