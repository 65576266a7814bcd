//! Grok Bot weekly quota: which login supplies it, how it is asked for, what the answer says.

pub mod credentials;
pub mod laws;
pub mod meter;
pub mod request;
pub mod stores;
