//! The bot's own rules: what its commands check and answer.
pub mod op;
pub mod reply;
pub mod request;
pub mod request_chat;
pub mod review;
pub mod sanitize;
pub mod start;
pub mod util;
