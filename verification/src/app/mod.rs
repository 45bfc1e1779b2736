//! What an application keeps besides its scenes: named values and options.

pub mod cache;
pub mod option;
