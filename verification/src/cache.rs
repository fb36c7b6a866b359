//! The glyph cache itself: a two-level memoization table over a font face.

use std::collections::HashMap;
use vstd::prelude::*;

use crate::raster;

verus! {

broadcast use vstd::std_specs::hash::group_hash_axioms;

/// The pixel height used when rasterizing glyphs, and the outer cache key.
pub type FontSize = u32;

/// An immutable bundle of rendering outputs for one (size, character) pair.
///
/// The texture is whatever the caller's texture provider produced from the
/// rasterized bitmap; `width` and `height` are that bitmap's pixel
/// dimensions, the same values the provider was given.
pub struct Character<T> {
    /// The vector outline glyph.
    pub glyph: freetype::glyph::Glyph,
    /// The outline rasterized to a pixel grid at the requested size.
    pub bitmap_glyph: freetype::bitmap_glyph::BitmapGlyph,
    /// The renderable resource built from the bitmap's pixels.
    pub texture: T,
    /// Number of pixels in one bitmap row.
    pub width: u32,
    /// Number of bitmap rows.
    pub height: u32,
}

/// Why loading one character failed. Each failure is scoped to its own
/// (size, character) pair and leaves every other cache entry untouched.
#[derive(Clone, Copy, Debug, PartialEq, Eq, Structural)]
pub enum CharacterError {
    /// Setting the face's active pixel size failed.
    PixelSize,
    /// The glyph load failed for a rasterizer-internal reason. An unmapped
    /// code point is not such a failure: it loads the fallback glyph.
    GlyphLoad,
    /// Extracting the outline glyph from the face's slot failed.
    OutlineExtraction,
    /// Converting the outline to a bitmap failed.
    BitmapConversion,
    /// The texture provider declined the bitmap's pixels.
    TextureUpload,
}

/// A cache of rendered characters, keyed by font size and character.
///
/// The cache exclusively owns its font face and grows monotonically: a
/// (size, character) pair is unresolved until the first request for it, and
/// from then on resolved to one immutable [`Character`] that every later
/// request returns unchanged.
#[verifier::reject_recursive_types(T)]
pub struct GlyphCache<T> {
    /// The font face every glyph is rasterized from.
    pub face: freetype::face::Face,
    data: HashMap<FontSize, HashMap<u32, Character<T>>>,
}

/// Holds when `post` differs from `pre` at most at the pair of `size` and
/// the code point `cp`: every other pair keeps its resolution status, and
/// every other resolved pair keeps its character.
pub open spec fn others_unchanged<T>(
    pre: GlyphCache<T>,
    post: GlyphCache<T>,
    size: FontSize,
    cp: u32,
) -> bool {
    forall|s: FontSize, c: u32|
        #![trigger post.resolved_at(s, c)]
        #![trigger pre.resolved_at(s, c)]
        s != size || c != cp ==> {
            &&& (post.resolved_at(s, c) <==> pre.resolved_at(s, c))
            &&& (pre.resolved_at(s, c) ==> post.entry_at(s, c) == pre.entry_at(s, c))
        }
}

impl<T> GlyphCache<T> {
    /// Whether the pair of `size` and the code point `cp` has been resolved
    /// to a cached character.
    pub closed spec fn resolved_at(self, size: FontSize, cp: u32) -> bool {
        self.data@.contains_key(size) && self.data@[size]@.contains_key(cp)
    }

    /// The character cached for `size` and the code point `cp`, meaningful
    /// when `resolved_at` holds of them.
    pub closed spec fn entry_at(self, size: FontSize, cp: u32) -> Character<T> {
        self.data@[size]@[cp]
    }

    /// Whether the pair (size, ch) has been resolved to a cached character.
    pub open spec fn resolved(self, size: FontSize, ch: char) -> bool {
        self.resolved_at(size, ch as u32)
    }

    /// The character cached for (size, ch), meaningful when `resolved`.
    pub open spec fn entry(self, size: FontSize, ch: char) -> Character<T> {
        self.entry_at(size, ch as u32)
    }

    /// The font face the cache owns.
    pub closed spec fn spec_face(self) -> freetype::face::Face {
        self.face
    }

    /// Constructor for a GlyphCache around an already loaded font face.
    /// The new cache has nothing resolved.
    pub fn new(face: freetype::face::Face) -> (c: GlyphCache<T>)
        ensures
            c.spec_face() == face,
            forall|s: FontSize, ch: char| !c.resolved(s, ch),
    {
        GlyphCache { face, data: HashMap::new() }
    }

    /// Return the character cached for (size, ch), without loading anything.
    pub fn lookup(&self, size: FontSize, ch: char) -> (r: Option<&Character<T>>)
        ensures
            match r {
                Some(c) => self.resolved(size, ch) && *c == self.entry(size, ch),
                None => !self.resolved(size, ch),
            },
    {
        let cp: u32 = ch as u32;
        match self.data.get(&size) {
            Some(inner) => inner.get(&cp),
            None => None,
        }
    }

    /// Return a reference to the `Character` for (size, ch). On a hit the
    /// cache is left untouched; on a miss the character is loaded through the
    /// face and the `upload` texture provider, stored, and returned. A load
    /// failure is scoped to this one pair: every other entry survives it.
    pub fn get_character<'a, F: Fn(Vec<u8>, u32, u32) -> Option<T>>(
        &'a mut self,
        size: FontSize,
        ch: char,
        upload: F,
    ) -> (r: Result<&'a Character<T>, CharacterError>)
        requires
            forall|b: Vec<u8>, w: u32, h: u32| #[trigger] call_requires(upload, (b, w, h)),
        ensures
            forall|s: FontSize, c: char| #[trigger]
                old(self).resolved(s, c) ==> final(self).resolved(s, c) && final(self).entry(
                    s,
                    c,
                ) == old(self).entry(s, c),
            old(self).resolved(size, ch) ==> r is Ok && *final(self) == *old(self),
            r matches Ok(c) ==> final(self).resolved(size, ch) && *c == final(self).entry(
                size,
                ch,
            ),
            r is Err ==> *final(self) == *old(self),
            !old(self).resolved(size, ch) && r is Ok ==> others_unchanged(
                *old(self),
                *final(self),
                size,
                ch as u32,
            ) && final(self).spec_face() == old(self).spec_face(),
            !old(self).resolved(size, ch) && r is Ok ==> (exists|b: Vec<u8>|
                call_ensures(
                    upload,
                    (b, final(self).entry(size, ch).width, final(self).entry(size, ch).height),
                    Some(final(self).entry(size, ch).texture),
                )),
    {
        let cp: u32 = ch as u32;
        let cached: bool = match self.data.get(&size) {
            Some(inner) => inner.contains_key(&cp),
            None => false,
        };
        if !cached {
            match self.load_character(size, ch, upload) {
                Ok(()) => {}
                Err(e) => {
                    return Err(e);
                }
            }
        }
        match self.data.get(&size) {
            Some(inner) => match inner.get(&cp) {
                Some(c) => Ok(c),
                None => vstd::pervasive::unreached(),
            },
            None => vstd::pervasive::unreached(),
        }
    }

    /// Load the `Character` for (size, ch) and store it: set the face's
    /// pixel size, load the glyph, extract its outline, rasterize it to a
    /// bitmap, and hand the pixels to the texture provider. Any failure
    /// leaves the cache exactly as it was.
    fn load_character<F: Fn(Vec<u8>, u32, u32) -> Option<T>>(
        &mut self,
        size: FontSize,
        ch: char,
        upload: F,
    ) -> (r: Result<(), CharacterError>)
        requires
            !old(self).resolved(size, ch),
            forall|b: Vec<u8>, w: u32, h: u32| #[trigger] call_requires(upload, (b, w, h)),
        ensures
            r is Ok ==> final(self).resolved(size, ch) && others_unchanged(
                *old(self),
                *final(self),
                size,
                ch as u32,
            ) && final(self).spec_face() == old(self).spec_face(),
            r is Ok ==> (exists|b: Vec<u8>|
                call_ensures(
                    upload,
                    (b, final(self).entry(size, ch).width, final(self).entry(size, ch).height),
                    Some(final(self).entry(size, ch).texture),
                )),
            r is Err ==> *final(self) == *old(self),
    {
        let cp: u32 = ch as u32;
        match raster::face_set_pixel_sizes(&self.face, 0, size) {
            Ok(()) => {}
            Err(_) => {
                return Err(CharacterError::PixelSize);
            }
        }
        match raster::face_load_char(&self.face, ch) {
            Ok(()) => {}
            Err(_) => {
                return Err(CharacterError::GlyphLoad);
            }
        }
        let slot = raster::face_glyph_slot(&self.face);
        let glyph = match raster::slot_get_glyph(&slot) {
            Ok(g) => g,
            Err(_) => {
                return Err(CharacterError::OutlineExtraction);
            }
        };
        let bitmap_glyph = match raster::glyph_to_bitmap(&glyph) {
            Ok(b) => b,
            Err(_) => {
                return Err(CharacterError::BitmapConversion);
            }
        };
        let bitmap = raster::bitmap_glyph_bitmap(&bitmap_glyph);
        let buffer = raster::bitmap_buffer(&bitmap);
        let width = raster::bitmap_width(&bitmap);
        let height = raster::bitmap_rows(&bitmap);
        let ghost sent = buffer;
        let texture = match upload(buffer, width, height) {
            Some(t) => t,
            None => {
                return Err(CharacterError::TextureUpload);
            }
        };
        let character = Character { glyph, bitmap_glyph, texture, width, height };
        let ghost stored = character;
        let mut inner: HashMap<u32, Character<T>> = match self.data.remove(&size) {
            Some(m) => m,
            None => HashMap::new(),
        };
        inner.insert(cp, character);
        self.data.insert(size, inner);
        proof {
            assert(self.entry(size, ch) == stored);
            assert(call_ensures(upload, (sent, stored.width, stored.height), Some(stored.texture)));
            assert(others_unchanged(*old(self), *self, size, cp));
        }
        Ok(())
    }
}

/// Law: a resolved pair is stable. A cache step that resolves any other
/// pair — which is the only way `get_character` ever changes the cache —
/// keeps the first pair resolved, with the very same character.
pub proof fn lemma_resolved_is_stable<T>(
    pre: GlyphCache<T>,
    post: GlyphCache<T>,
    s1: FontSize,
    ch1: char,
    s2: FontSize,
    ch2: char,
)
    requires
        pre.resolved(s1, ch1),
        others_unchanged(pre, post, s2, ch2 as u32),
        s1 != s2 || ch1 != ch2,
    ensures
        post.resolved(s1, ch1),
        post.entry(s1, ch1) == pre.entry(s1, ch1),
{
    if s1 == s2 {
        assert(ch1 as int <= 0x10FFFF);
        assert(ch2 as int <= 0x10FFFF);
        assert(ch1 as u32 != ch2 as u32);
    }
}

/// Law: key independence. Resolving one pair and then a different pair —
/// whether the sizes differ or the characters do — leaves both pairs
/// resolved, each retaining its own character independently of the other.
pub proof fn lemma_independent_keys_retained<T>(
    c0: GlyphCache<T>,
    c1: GlyphCache<T>,
    c2: GlyphCache<T>,
    s1: FontSize,
    ch1: char,
    s2: FontSize,
    ch2: char,
)
    requires
        c1.resolved(s1, ch1),
        others_unchanged(c0, c1, s1, ch1 as u32),
        c2.resolved(s2, ch2),
        others_unchanged(c1, c2, s2, ch2 as u32),
        s1 != s2 || ch1 != ch2,
    ensures
        c2.resolved(s1, ch1),
        c2.entry(s1, ch1) == c1.entry(s1, ch1),
        c2.resolved(s2, ch2),
{
    lemma_resolved_is_stable(c1, c2, s1, ch1, s2, ch2);
}

} // verus!
