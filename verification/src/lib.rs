//! A counter-service core: per-key hit counts with live notification, and a
//! badge rendering engine that turns a `(label, message, style, colors)`
//! tuple into a vector image sized from real glyph metrics.

pub mod api;
pub mod badge;
pub mod counter;
pub mod fanout;
pub mod font_metrics;
pub mod text;
