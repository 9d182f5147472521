//! Screen state: what each screen shows and how its keys move it.

pub mod calendar;
pub mod contacts;
pub mod mail;
