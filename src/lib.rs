//! A WebDriver protocol bridge core: error model, value codecs, path router,
//! command builder and response envelope.

pub mod error;
pub mod json;
pub mod common;
pub mod router;
pub mod command;
pub mod response;
