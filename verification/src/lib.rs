//! Verified core of a Telegram bot that downloads videos with yt-dlp.
pub mod bot;
pub mod db;
pub mod dl;
pub mod log;
pub mod text;
pub mod util;
