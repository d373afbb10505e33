//! A templated image-composition pipeline: a declarative template describes a
//! stack of background images, two runtime-selected sprites, a foreground
//! stack and a set of positioned text labels; the pipeline resolves
//! placeholders, composites the ordered stack onto a canvas and flattens it
//! to an opaque output, with memoized image loads and text renders and a
//! hot-swappable configuration/font pair.

pub mod cache;
pub mod compose;
pub mod config;
pub mod imgops;
pub mod naming;
pub mod text;
pub mod video;
