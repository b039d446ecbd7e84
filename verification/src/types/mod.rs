//! The values of a webhook message and the builders that assemble them.

pub mod embed;
pub mod webhook;
