//! A small content-publishing core: front-matter documents parsed into posts,
//! a best-effort post listing, lookups by slug, and a hot-swappable template set.

pub mod document;
pub mod repository;
pub mod templates;
pub mod text;
