//! Composite portrait generation: asset selection, text layout and render
//! planning for a roster of sinners and their identities.

pub mod assets;
pub mod config;
pub mod files;
pub mod images;
pub mod text;
