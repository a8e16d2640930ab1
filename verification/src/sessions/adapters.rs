//! The session store over a concrete backend.

pub mod redis;
