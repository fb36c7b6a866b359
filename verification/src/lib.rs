//! A memoizing glyph cache.
//!
//! Turning a (font size, character) pair into a renderable glyph image is
//! expensive: the font face must be set to the right pixel size, the glyph
//! rasterized to a bitmap, and the pixels uploaded as a texture. This crate
//! caches that work in a two-level mapping from font size to character to
//! [`Character`], so that repeated requests for the same pair never repeat
//! it. The cache only grows: once a pair is resolved, later lookups are pure
//! reads that return the stored [`Character`] unchanged.

mod cache;
mod raster;

pub use cache::Character;
pub use cache::CharacterError;
pub use cache::FontSize;
pub use cache::GlyphCache;
pub use cache::lemma_independent_keys_retained;
pub use cache::lemma_resolved_is_stable;
pub use cache::others_unchanged;
