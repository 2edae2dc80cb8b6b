//! Verified core of the Verder Helpen identity services: the pure decisions
//! of the authentication test service, of the communication plugins and of the
//! core's communication methods, over URL, base64 and JSON primitives.

pub mod codec;
pub mod weburl;
pub mod baseurl;
pub mod text;
pub mod common;
pub mod comm_method;
pub mod attributes;
pub mod config;
pub mod guest;
pub mod host;
