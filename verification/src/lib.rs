//! Verified core of the MangoFetch desktop client: design tokens and brand
//! palettes, the messages exchanged between the interface and the download
//! engine, the interface state machine and the text it renders.

pub mod theme;
pub mod text;
pub mod bridge;
pub mod app;
pub mod runtime;
pub mod widgets;
pub mod fonts;
