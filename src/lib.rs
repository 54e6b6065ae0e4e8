//! Client-side protocol of the messaging bot API method `/me`: the request URL,
//! the interpretation of the HTTP status, the error taxonomy, and a strict
//! decoder of the bot identity carried by the response body.
//!
//! Sending the request is left to a transport (blocking or non-blocking), which
//! hands this library the status code and the body text it received.

pub mod endpoint;
pub mod error;
pub mod json;
pub mod responses;

pub use crate::endpoint::Endpoint;
pub use crate::error::{ClientError, JsonError};
pub use crate::responses::{BotCommand, GetMeResponse};
