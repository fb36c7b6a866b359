//! Trusted boundary around the FreeType rasterization engine.
//!
//! Every call the library makes into FreeType goes through one of the
//! wrappers below. Each wrapper makes exactly one FreeType call; the rest of
//! the library treats the values that come back as opaque handles.

use vstd::prelude::*;

verus! {

/// A loaded font face, able to rasterize glyphs at a chosen pixel size.
#[verifier::external_type_specification]
#[verifier::external_body]
#[verifier::reject_recursive_types(BYTES)]
pub struct ExFace<BYTES>(freetype::face::Face<BYTES>);

/// The slot on a face that the latest glyph load fills.
#[verifier::external_type_specification]
#[verifier::external_body]
pub struct ExGlyphSlot(freetype::glyph_slot::GlyphSlot);

/// A vector outline glyph extracted from a face's glyph slot.
#[verifier::external_type_specification]
#[verifier::external_body]
pub struct ExGlyph(freetype::glyph::Glyph);

/// A glyph rasterized to a pixel grid at one specific size.
#[verifier::external_type_specification]
#[verifier::external_body]
pub struct ExBitmapGlyph(freetype::bitmap_glyph::BitmapGlyph);

/// A view of the raw pixel storage behind a bitmap glyph.
#[verifier::external_type_specification]
#[verifier::external_body]
pub struct ExBitmap(freetype::bitmap::Bitmap);

/// FreeType's own error code.
#[verifier::external_type_specification]
#[verifier::external_body]
pub struct ExFtError(freetype::error::Error);

/// Relies on freetype::face::Face::set_pixel_sizes: sets the active pixel
/// size used by later glyph loads, reporting failure through its result.
#[verifier::external_body]
pub(crate) fn face_set_pixel_sizes(
    face: &freetype::face::Face,
    width: u32,
    height: u32,
) -> (r: Result<(), freetype::error::Error>) {
    face.set_pixel_sizes(width, height)
}

/// Relies on freetype::face::Face::load_char with the default load flags:
/// rasterizer-internal errors come back through the result; an unmapped code
/// point is not an error and loads the face's fallback glyph instead.
#[verifier::external_body]
pub(crate) fn face_load_char(
    face: &freetype::face::Face,
    ch: char,
) -> (r: Result<(), freetype::error::Error>) {
    face.load_char(ch as usize, freetype::face::LoadFlag::DEFAULT)
}

/// Relies on freetype::face::Face::glyph: hands out the face's current glyph
/// slot, which the latest glyph load filled.
#[verifier::external_body]
pub(crate) fn face_glyph_slot(face: &freetype::face::Face) -> (r:
    freetype::glyph_slot::GlyphSlot) {
    *face.glyph()
}

/// Relies on freetype::glyph_slot::GlyphSlot::get_glyph: extracts the outline
/// glyph object from the slot, or fails if the slot holds none.
#[verifier::external_body]
pub(crate) fn slot_get_glyph(slot: &freetype::glyph_slot::GlyphSlot) -> (r: Result<
    freetype::glyph::Glyph,
    freetype::error::Error,
>) {
    slot.get_glyph()
}

/// Relies on freetype::glyph::Glyph::to_bitmap in normal (anti-aliased,
/// 8-bit grayscale) render mode with no origin offset.
#[verifier::external_body]
pub(crate) fn glyph_to_bitmap(glyph: &freetype::glyph::Glyph) -> (r: Result<
    freetype::bitmap_glyph::BitmapGlyph,
    freetype::error::Error,
>) {
    glyph.to_bitmap(freetype::RenderMode::Normal, None)
}

/// Relies on freetype::bitmap_glyph::BitmapGlyph::bitmap: a view of the
/// rasterized pixels.
#[verifier::external_body]
pub(crate) fn bitmap_glyph_bitmap(bg: &freetype::bitmap_glyph::BitmapGlyph) -> (r:
    freetype::bitmap::Bitmap) {
    bg.bitmap()
}

/// Relies on freetype::bitmap::Bitmap::buffer: the raw single-channel pixel
/// rows, copied out into an owned buffer.
#[verifier::external_body]
pub(crate) fn bitmap_buffer(bitmap: &freetype::bitmap::Bitmap) -> (r: Vec<u8>) {
    bitmap.buffer().to_vec()
}

/// Relies on freetype::bitmap::Bitmap::width: the number of pixels in one
/// bitmap row, converted to the unsigned type the texture provider takes.
#[verifier::external_body]
pub(crate) fn bitmap_width(bitmap: &freetype::bitmap::Bitmap) -> (r: u32) {
    bitmap.width() as u32
}

/// Relies on freetype::bitmap::Bitmap::rows: the number of bitmap rows,
/// converted to the unsigned type the texture provider takes.
#[verifier::external_body]
pub(crate) fn bitmap_rows(bitmap: &freetype::bitmap::Bitmap) -> (r: u32) {
    bitmap.rows() as u32
}

} // verus!
