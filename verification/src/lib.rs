//! Attachment colours for Slack messages: the three colours that Slack
//! names itself, and `#`-prefixed hexadecimal colour codes.

pub mod digits;
pub mod hex;
pub mod types;
