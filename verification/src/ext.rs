//! The extensions that come with the runtime.

pub mod performance;
