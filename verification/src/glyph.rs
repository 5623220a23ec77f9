//! Bookkeeping for the glyph atlas: which font generation it holds and how
//! much it has been filled since it was last emptied.
use vstd::prelude::*;
use crate::arith::saturating_sum;

verus! {

#[derive(Clone, Copy, Debug, PartialEq, Eq, Structural)]
pub struct GlyphAtlasLifecycle {
    pub font_epoch: u64,
    pub atlas_generation: u64,
    pub glyph_count: usize,
    pub byte_estimate: usize,
    pub evictions: u64,
}

impl GlyphAtlasLifecycle {
    /// The state after the font stack changed: a new font epoch and a new,
    /// empty atlas.
    pub open spec fn after_font_change(self) -> GlyphAtlasLifecycle {
        GlyphAtlasLifecycle {
            font_epoch: (self.font_epoch + 1) as u64,
            atlas_generation: (self.atlas_generation + 1) as u64,
            glyph_count: 0,
            byte_estimate: 0,
            evictions: self.evictions,
        }
    }

    /// The state after `glyphs` glyphs of `bytes` bytes were uploaded; both
    /// counts saturate.
    pub open spec fn after_upload(self, glyphs: usize, bytes: usize) -> GlyphAtlasLifecycle {
        GlyphAtlasLifecycle {
            glyph_count: saturating_sum(self.glyph_count, glyphs),
            byte_estimate: saturating_sum(self.byte_estimate, bytes),
            ..self
        }
    }

    /// The state after the whole atlas was evicted: a new, empty atlas of the
    /// same font epoch, and one more eviction counted.
    pub open spec fn after_eviction(self) -> GlyphAtlasLifecycle {
        GlyphAtlasLifecycle {
            font_epoch: self.font_epoch,
            atlas_generation: (self.atlas_generation + 1) as u64,
            glyph_count: 0,
            byte_estimate: 0,
            evictions: (self.evictions + 1) as u64,
        }
    }

    pub fn note_font_stack_changed(&mut self)
        requires
            old(self).font_epoch < u64::MAX,
            old(self).atlas_generation < u64::MAX,
        ensures
            *final(self) == old(self).after_font_change(),
    {
        self.font_epoch += 1;
        self.atlas_generation += 1;
        self.glyph_count = 0;
        self.byte_estimate = 0;
    }

    pub fn note_glyphs_uploaded(&mut self, glyph_count: usize, bytes: usize)
        ensures
            *final(self) == old(self).after_upload(glyph_count, bytes),
    {
        self.glyph_count = self.glyph_count.saturating_add(glyph_count);
        self.byte_estimate = self.byte_estimate.saturating_add(bytes);
    }

    pub fn evict_all(&mut self)
        requires
            old(self).atlas_generation < u64::MAX,
            old(self).evictions < u64::MAX,
        ensures
            *final(self) == old(self).after_eviction(),
    {
        self.atlas_generation += 1;
        self.glyph_count = 0;
        self.byte_estimate = 0;
        self.evictions += 1;
    }
}

impl Default for GlyphAtlasLifecycle {
    /// A fresh atlas: every counter at zero.
    fn default() -> (r: GlyphAtlasLifecycle)
        ensures
            r == (GlyphAtlasLifecycle {
                font_epoch: 0,
                atlas_generation: 0,
                glyph_count: 0,
                byte_estimate: 0,
                evictions: 0,
            }),
    {
        GlyphAtlasLifecycle {
            font_epoch: 0,
            atlas_generation: 0,
            glyph_count: 0,
            byte_estimate: 0,
            evictions: 0,
        }
    }
}

/// Changing the font stack and evicting both leave an empty atlas of a newer
/// generation; only a font change starts a new font epoch, and only an
/// eviction is counted as one.
pub proof fn law_reset_empties_atlas(s: GlyphAtlasLifecycle)
    requires
        s.font_epoch < u64::MAX,
        s.atlas_generation < u64::MAX,
        s.evictions < u64::MAX,
    ensures
        s.after_font_change().glyph_count == 0 && s.after_font_change().byte_estimate == 0,
        s.after_eviction().glyph_count == 0 && s.after_eviction().byte_estimate == 0,
        s.after_font_change().atlas_generation == s.atlas_generation + 1,
        s.after_eviction().atlas_generation == s.atlas_generation + 1,
        s.after_font_change().font_epoch == s.font_epoch + 1,
        s.after_eviction().font_epoch == s.font_epoch,
        s.after_font_change().evictions == s.evictions,
        s.after_eviction().evictions == s.evictions + 1,
{
}

/// Uploads never shrink the recorded glyph count or byte estimate, and they
/// touch neither the font epoch, the generation nor the eviction count.
pub proof fn law_uploads_only_grow(s: GlyphAtlasLifecycle, glyphs: usize, bytes: usize)
    ensures
        s.after_upload(glyphs, bytes).glyph_count >= s.glyph_count,
        s.after_upload(glyphs, bytes).byte_estimate >= s.byte_estimate,
        s.after_upload(glyphs, bytes).font_epoch == s.font_epoch,
        s.after_upload(glyphs, bytes).atlas_generation == s.atlas_generation,
        s.after_upload(glyphs, bytes).evictions == s.evictions,
{
}

/// An upload adds the glyph count to the glyph count and the bytes to the
/// byte estimate, each held at `usize::MAX`; neither depends on the other
/// argument.
pub proof fn law_upload_adds_its_own_amounts(s: GlyphAtlasLifecycle, glyphs: usize, bytes: usize)
    ensures
        s.glyph_count + glyphs <= usize::MAX ==> s.after_upload(glyphs, bytes).glyph_count
            == s.glyph_count + glyphs,
        s.glyph_count + glyphs > usize::MAX ==> s.after_upload(glyphs, bytes).glyph_count
            == usize::MAX,
        s.byte_estimate + bytes <= usize::MAX ==> s.after_upload(glyphs, bytes).byte_estimate
            == s.byte_estimate + bytes,
        s.byte_estimate + bytes > usize::MAX ==> s.after_upload(glyphs, bytes).byte_estimate
            == usize::MAX,
{
}

} // verus!
