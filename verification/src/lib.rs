//! Herald: the verified core of a JMAP mail, contacts and calendar client
//! for Stalwart Mail Server.
//!
//! The crate holds the decisions and data models of the client: display
//! sanitisation, configuration and profile resolution, token caching rules,
//! OAuth helpers, and the models behind the terminal interface (list
//! windows, forms, calendar math, folder trees, popups, key maps).

pub mod auth;
mod clock;
pub mod config;
pub mod digits;
pub mod jmap;
pub mod oauth;
pub mod secret;
pub mod seqs;
pub mod strings;
pub mod text;
pub mod tui;
pub mod validate;
