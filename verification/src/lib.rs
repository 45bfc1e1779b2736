//! A terminal UI toolkit: a decoder from raw terminal bytes to input events,
//! and a layout engine that places a tree of widgets on the character grid.

pub mod app;
pub mod draw;
pub mod input;
pub mod key;
pub mod log;
pub mod panel;
pub mod scene;
pub mod style;
pub mod text;
pub mod theme;
pub mod unit;
pub mod widget;
