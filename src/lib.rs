//! A client for the Internet Chuck Norris Database.
//!
//! The library builds request URLs, decodes the JSON envelope that the
//! service answers with, unescapes the joke text and maps every failure to
//! one of three error kinds. The HTTP transport itself is handed in by the
//! caller as a function from URL to response body.
pub mod client;
pub mod error;
pub mod joke;
pub mod json;
pub mod request;
pub mod response;
pub mod text;

pub use client::ApiClient;
pub use error::{Error, ErrorKind};
pub use joke::Joke;
pub use request::{Scheme, Target};
