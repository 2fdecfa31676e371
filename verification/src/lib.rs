//! A chat view: a verified controller for a single-page chat UI.
//!
//! The library is split into the wire codec (`codec`), the view state and
//! its transition function (`chat`), the render projection (`render`), and
//! small text utilities (`text`).

pub mod chat;
pub mod render;
pub mod codec;
pub mod text;
