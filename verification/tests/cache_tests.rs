use std::cell::Cell;

use glyph_cache::CharacterError;
use glyph_cache::GlyphCache;

const FONT_PATH: &str = "/usr/share/fonts/truetype/dejavu/DejaVuSans.ttf";

fn dejavu_face() -> freetype::Face {
    let library = freetype::Library::init().unwrap();
    library.new_face(FONT_PATH, 0).unwrap()
}

#[test]
fn new_cache_has_nothing_resolved() {
    let cache: GlyphCache<u64> = GlyphCache::new(dejavu_face());
    assert!(cache.lookup(24, 'A').is_none());
    assert!(cache.lookup(0, ' ').is_none());
}

#[test]
fn letter_has_positive_dimensions() {
    let mut cache: GlyphCache<(u32, u32)> = GlyphCache::new(dejavu_face());
    let upload = |_buf: Vec<u8>, w: u32, h: u32| Some((w, h));
    let c = cache.get_character(24, 'A', &upload).unwrap();
    assert!(c.width > 0);
    assert!(c.height > 0);
    assert_eq!(c.texture, (c.width, c.height));
}

#[test]
fn second_call_returns_identical_texture_without_reupload() {
    let mut cache: GlyphCache<u64> = GlyphCache::new(dejavu_face());
    let uploads = Cell::new(0u64);
    let upload = |_buf: Vec<u8>, _w: u32, _h: u32| {
        uploads.set(uploads.get() + 1);
        Some(uploads.get())
    };
    let first = cache.get_character(24, 'A', &upload).unwrap().texture;
    let second = cache.get_character(24, 'A', &upload).unwrap().texture;
    assert_eq!(first, second);
    assert_eq!(uploads.get(), 1);
}

#[test]
fn different_sizes_give_distinct_retained_characters() {
    let mut cache: GlyphCache<(u32, u32)> = GlyphCache::new(dejavu_face());
    let upload = |_buf: Vec<u8>, w: u32, h: u32| Some((w, h));
    let small = cache.get_character(24, 'A', &upload).unwrap().texture;
    let large = cache.get_character(36, 'A', &upload).unwrap().texture;
    assert_ne!(small, large);
    let small_again = cache.lookup(24, 'A').unwrap();
    let large_again = cache.lookup(36, 'A').unwrap();
    assert_eq!(small_again.texture, small);
    assert_eq!(large_again.texture, large);
}

#[test]
fn different_characters_give_independent_entries() {
    let mut cache: GlyphCache<u64> = GlyphCache::new(dejavu_face());
    let uploads = Cell::new(0u64);
    let upload = |_buf: Vec<u8>, _w: u32, _h: u32| {
        uploads.set(uploads.get() + 1);
        Some(uploads.get())
    };
    let a = cache.get_character(24, 'A', &upload).unwrap().texture;
    let b = cache.get_character(24, 'B', &upload).unwrap().texture;
    assert_ne!(a, b);
    assert_eq!(uploads.get(), 2);
    assert_eq!(cache.lookup(24, 'A').unwrap().texture, a);
    assert_eq!(cache.lookup(24, 'B').unwrap().texture, b);
}

#[test]
fn whitespace_yields_zero_area_character() {
    let mut cache: GlyphCache<(u32, u32)> = GlyphCache::new(dejavu_face());
    let upload = |_buf: Vec<u8>, w: u32, h: u32| Some((w, h));
    let c = cache.get_character(24, ' ', &upload).unwrap();
    assert!(c.width == 0 || c.height == 0);
}

#[test]
fn unmapped_codepoint_resolves_to_fallback_glyph() {
    let mut cache: GlyphCache<(u32, u32)> = GlyphCache::new(dejavu_face());
    let upload = |_buf: Vec<u8>, w: u32, h: u32| Some((w, h));
    assert!(cache.get_character(24, '\u{ffff}', &upload).is_ok());
    assert!(cache.lookup(24, '\u{ffff}').is_some());
}

#[test]
fn construction_fails_on_missing_font_file() {
    let library = freetype::Library::init().unwrap();
    let face = library.new_face("/no/such/directory/missing-font.ttf", 0);
    assert!(face.is_err());
}

#[test]
fn upload_failure_is_scoped_to_its_character() {
    let mut cache: GlyphCache<u64> = GlyphCache::new(dejavu_face());
    let good = |_buf: Vec<u8>, _w: u32, _h: u32| Some(7u64);
    let bad = |_buf: Vec<u8>, _w: u32, _h: u32| None;
    assert!(cache.get_character(24, 'A', &good).is_ok());
    let err = match cache.get_character(24, 'B', &bad) {
        Ok(_) => panic!("expected the upload failure to reach the caller"),
        Err(e) => e,
    };
    assert_eq!(err, CharacterError::TextureUpload);
    assert_eq!(cache.lookup(24, 'A').unwrap().texture, 7);
    assert!(cache.lookup(24, 'B').is_none());
    assert!(cache.get_character(24, 'B', &good).is_ok());
    assert_eq!(cache.lookup(24, 'B').unwrap().texture, 7);
}

#[test]
fn zero_pixel_size_request_leaves_other_entries_intact() {
    let mut cache: GlyphCache<u64> = GlyphCache::new(dejavu_face());
    let upload = |_buf: Vec<u8>, _w: u32, _h: u32| Some(1u64);
    assert!(cache.get_character(24, 'A', &upload).is_ok());
    if cache.get_character(0, 'A', &upload).is_ok() {
        assert!(cache.lookup(0, 'A').is_some());
    } else {
        assert!(cache.lookup(0, 'A').is_none());
    }
    assert_eq!(cache.lookup(24, 'A').unwrap().texture, 1);
}
