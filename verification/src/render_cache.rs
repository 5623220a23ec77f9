//! Per-surface cache keys that decide which stages must be redone.
use vstd::prelude::*;
use crate::dirty::DirtyFlags;
use crate::tree::UiId;

verus! {

#[derive(Clone, Copy, Debug, PartialEq, Eq, Structural)]
pub struct SurfaceRenderCache {
    pub surface_id: UiId,
    pub layout_key: u64,
    pub display_key: u64,
    pub semantic_key: u64,
    pub invalidation_epoch: u64,
}

impl SurfaceRenderCache {
    /// The flags that new keys raise: a stage is dirty exactly when its key
    /// changed. Text is never raised here.
    pub open spec fn flags_for(self, layout_key: u64, display_key: u64, semantic_key: u64) -> DirtyFlags {
        DirtyFlags {
            layout: self.layout_key != layout_key,
            paint: self.display_key != display_key,
            text: false,
            semantics: self.semantic_key != semantic_key,
        }
    }

    /// The cache after it was handed new keys: it holds them, and its epoch
    /// advances by one when any of them changed.
    pub open spec fn with_keys(self, layout_key: u64, display_key: u64, semantic_key: u64) -> SurfaceRenderCache {
        SurfaceRenderCache {
            surface_id: self.surface_id,
            layout_key,
            display_key,
            semantic_key,
            invalidation_epoch: if self.flags_for(layout_key, display_key, semantic_key).spec_any() {
                (self.invalidation_epoch + 1) as u64
            } else {
                self.invalidation_epoch
            },
        }
    }

    /// A cache for `surface_id` with every key and the epoch at zero.
    pub fn new(surface_id: UiId) -> (r: SurfaceRenderCache)
        ensures
            r == (SurfaceRenderCache {
                surface_id,
                layout_key: 0,
                display_key: 0,
                semantic_key: 0,
                invalidation_epoch: 0,
            }),
    {
        SurfaceRenderCache {
            surface_id,
            layout_key: 0,
            display_key: 0,
            semantic_key: 0,
            invalidation_epoch: 0,
        }
    }

    /// Records new keys and reports which stages they invalidate.
    pub fn update_keys(&mut self, layout_key: u64, display_key: u64, semantic_key: u64) -> (flags: DirtyFlags)
        requires
            old(self).flags_for(layout_key, display_key, semantic_key).spec_any()
                ==> old(self).invalidation_epoch < u64::MAX,
        ensures
            flags == old(self).flags_for(layout_key, display_key, semantic_key),
            *final(self) == old(self).with_keys(layout_key, display_key, semantic_key),
    {
        let mut flags = DirtyFlags::default();
        if self.layout_key != layout_key {
            self.layout_key = layout_key;
            flags.layout = true;
        }
        if self.display_key != display_key {
            self.display_key = display_key;
            flags.paint = true;
        }
        if self.semantic_key != semantic_key {
            self.semantic_key = semantic_key;
            flags.semantics = true;
        }
        if flags.any() {
            self.invalidation_epoch += 1;
        }
        flags
    }
}

/// Handing a cache the keys it already holds invalidates nothing and leaves
/// it as it is; so a second update with the same keys is a no-op.
pub proof fn law_same_keys_invalidate_nothing(
    c: SurfaceRenderCache,
    layout_key: u64,
    display_key: u64,
    semantic_key: u64,
)
    ensures
        !c.flags_for(c.layout_key, c.display_key, c.semantic_key).spec_any(),
        c.with_keys(c.layout_key, c.display_key, c.semantic_key) == c,
        ({
            let once = c.with_keys(layout_key, display_key, semantic_key);
            &&& !once.flags_for(layout_key, display_key, semantic_key).spec_any()
            &&& once.with_keys(layout_key, display_key, semantic_key) == once
        }),
{
}

/// The epoch counts the updates that invalidated something: it advances by
/// exactly one on such an update and stays put otherwise.
pub proof fn law_epoch_counts_invalidating_updates(
    c: SurfaceRenderCache,
    layout_key: u64,
    display_key: u64,
    semantic_key: u64,
)
    requires
        c.invalidation_epoch < u64::MAX,
    ensures
        c.with_keys(layout_key, display_key, semantic_key).invalidation_epoch == c.invalidation_epoch
            + if c.flags_for(layout_key, display_key, semantic_key).spec_any() {
            1int
        } else {
            0int
        },
{
}

/// The flags an update reports raise a stage exactly when that stage's own
/// key changed, and never raise text.
pub proof fn law_flags_follow_their_own_keys(
    c: SurfaceRenderCache,
    layout_key: u64,
    display_key: u64,
    semantic_key: u64,
)
    ensures
        c.flags_for(layout_key, display_key, semantic_key).layout <==> c.layout_key != layout_key,
        c.flags_for(layout_key, display_key, semantic_key).paint <==> c.display_key != display_key,
        c.flags_for(layout_key, display_key, semantic_key).semantics <==> c.semantic_key
            != semantic_key,
        !c.flags_for(layout_key, display_key, semantic_key).text,
        c.with_keys(layout_key, display_key, semantic_key).layout_key == layout_key,
        c.with_keys(layout_key, display_key, semantic_key).display_key == display_key,
        c.with_keys(layout_key, display_key, semantic_key).semantic_key == semantic_key,
        c.with_keys(layout_key, display_key, semantic_key).surface_id == c.surface_id,
{
}

} // verus!
