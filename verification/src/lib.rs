//! Retained-mode desktop UI engine: dirty tracking, render caches and
//! renderer-independent display data.
pub mod arith;
pub mod dirty;
pub mod display;
pub mod geometry;
pub mod glyph;
pub mod hash;
pub mod ime;
pub mod ordered;
pub mod prefs;
pub mod render_cache;
pub mod text;
pub mod tree;
pub mod virtual_list;
