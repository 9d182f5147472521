//! Pure models: list windows, forms, month math, folder trees.

pub mod month;
pub mod window;
pub mod form;
pub mod folders;
