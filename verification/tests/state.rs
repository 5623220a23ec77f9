use jcode_desktop::glyph::GlyphAtlasLifecycle;
use jcode_desktop::hash::stable_hash;
use jcode_desktop::ime::ImeState;
use jcode_desktop::prefs::{ThemeMode, UiPreferences};
use jcode_desktop::render_cache::SurfaceRenderCache;
use jcode_desktop::tree::UiId;
use jcode_desktop::virtual_list::VirtualListState;

#[test]
fn glyph_atlas_lifecycle_records_font_changes_and_evictions() {
    let mut atlas = GlyphAtlasLifecycle::default();
    atlas.note_glyphs_uploaded(10, 4096);
    assert_eq!(atlas.glyph_count, 10);
    atlas.note_font_stack_changed();
    assert_eq!(atlas.font_epoch, 1);
    assert_eq!(atlas.glyph_count, 0);
    atlas.note_glyphs_uploaded(3, 1024);
    atlas.evict_all();
    assert_eq!(atlas.evictions, 1);
    assert_eq!(atlas.glyph_count, 0);
}

#[test]
fn glyph_atlas_counts_saturate_and_generations_advance() {
    let mut atlas = GlyphAtlasLifecycle::default();
    atlas.note_glyphs_uploaded(usize::MAX - 1, 7);
    atlas.note_glyphs_uploaded(5, usize::MAX);
    assert_eq!(atlas.glyph_count, usize::MAX);
    assert_eq!(atlas.byte_estimate, usize::MAX);
    atlas.note_font_stack_changed();
    assert_eq!(atlas.atlas_generation, 1);
    assert_eq!(atlas.byte_estimate, 0);
    atlas.evict_all();
    assert_eq!(atlas.atlas_generation, 2);
    assert_eq!(atlas.font_epoch, 1);
    assert_eq!(atlas.evictions, 1);
}

#[test]
fn ime_state_tracks_preedit_and_commit() {
    let mut ime = ImeState::default();
    ime.apply_preedit("かな", Some((0, 6)));
    assert!(ime.active);
    assert_eq!(ime.commit(), "かな");
    assert!(!ime.active);
    assert!(ime.preedit.is_empty());
}

#[test]
fn ime_preedit_replaces_previous_text_and_commit_clears_cursor() {
    let mut ime = ImeState::default();
    ime.apply_preedit("a", Some((0, 1)));
    ime.apply_preedit("ab", None);
    assert_eq!(ime.cursor_byte_range, None);
    ime.apply_preedit("abc", Some((1, 3)));
    assert_eq!(ime.cursor_byte_range, Some((1, 3)));
    assert_eq!(ime.commit(), "abc");
    assert_eq!(ime, ImeState::default());
    assert_eq!(ime.commit(), "");
}

#[test]
fn virtual_list_and_surface_cache_report_minimal_invalidation() {
    let range = VirtualListState {
        total_items: 100,
        first_visible: 10,
        visible_count: 5,
        overscan: 2,
    }
    .materialized_range();
    assert_eq!(range, 8..17);

    let mut cache = SurfaceRenderCache::new(UiId(42));
    let flags = cache.update_keys(1, 2, 3);
    assert!(flags.layout && flags.paint && flags.semantics);
    let flags = cache.update_keys(1, 9, 3);
    assert!(!flags.layout && flags.paint && !flags.semantics);
    assert_eq!(cache.invalidation_epoch, 2);
}

#[test]
fn virtual_list_range_is_clipped_to_the_list() {
    let near_start = VirtualListState { total_items: 100, first_visible: 1, visible_count: 5, overscan: 3 };
    assert_eq!(near_start.materialized_range(), 0..9);
    let near_end = VirtualListState { total_items: 20, first_visible: 18, visible_count: 5, overscan: 4 };
    assert_eq!(near_end.materialized_range(), 14..20);
    let past_end = VirtualListState { total_items: 5, first_visible: 50, visible_count: 5, overscan: 1 };
    assert_eq!(past_end.materialized_range(), 5..5);
    let huge = VirtualListState { total_items: usize::MAX, first_visible: usize::MAX - 1, visible_count: usize::MAX, overscan: usize::MAX };
    assert_eq!(huge.materialized_range(), 0..usize::MAX);
    let empty = VirtualListState { total_items: 0, first_visible: 0, visible_count: 10, overscan: 2 };
    assert_eq!(empty.materialized_range(), 0..0);
    let exact = VirtualListState { total_items: 100, first_visible: 40, visible_count: 10, overscan: 0 };
    assert_eq!(exact.materialized_range(), 40..50);
}

#[test]
fn surface_cache_same_keys_invalidate_nothing() {
    let mut cache = SurfaceRenderCache::new(UiId(7));
    assert_eq!(cache.surface_id, UiId(7));
    let flags = cache.update_keys(0, 0, 0);
    assert!(!flags.any());
    assert_eq!(cache.invalidation_epoch, 0);
    let flags = cache.update_keys(4, 0, 8);
    assert!(flags.layout && !flags.paint && !flags.text && flags.semantics);
    assert_eq!(cache.invalidation_epoch, 1);
    let flags = cache.update_keys(4, 0, 8);
    assert!(!flags.any());
    assert_eq!(cache.invalidation_epoch, 1);
    assert_eq!((cache.layout_key, cache.display_key, cache.semantic_key), (4, 0, 8));
}

#[test]
fn preferences_cover_font_scale_and_reduced_motion() {
    let prefs = UiPreferences {
        font_scale: 9.0f32.to_bits(),
        reduced_motion: true,
        ..UiPreferences::default()
    };
    assert_eq!(prefs.animation_duration_ms(180), 0);
}

#[test]
fn default_preferences_are_unscaled_with_full_motion() {
    let prefs = UiPreferences::default();
    assert_eq!(prefs.theme_mode, ThemeMode::System);
    assert_eq!(f32::from_bits(prefs.font_scale), 1.0);
    assert_eq!(prefs.animation_duration_ms(180), 180);
}

#[test]
fn reduced_motion_disables_animation() {
    let prefs = UiPreferences { theme_mode: ThemeMode::System, font_scale: 1.0f32.to_bits(), reduced_motion: true };
    assert_eq!(prefs.animation_duration_ms(180), 0);
    let prefs = UiPreferences { reduced_motion: false, ..prefs };
    assert_eq!(prefs.animation_duration_ms(180), 180);
}

#[test]
fn stable_hash_is_deterministic() {
    let a = stable_hash(&(1u64, "x"));
    let b = stable_hash(&(1u64, "x"));
    assert_eq!(a, b);
    assert_ne!(stable_hash(&1u64), stable_hash(&2u64));
}
