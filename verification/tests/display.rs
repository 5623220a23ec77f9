use jcode_desktop::display::{DisplayCommand, DisplayImageRef, DisplayList, DisplayTextRun, TextAttributes};
use jcode_desktop::geometry::{ColorRgba, LayoutConstraints, UiPoint, UiRect, UiSize};
use jcode_desktop::text::{FontFallbackStack, TextEngineConfig, TextShapingMode};
use jcode_desktop::tree::{AccessibilityRole, SemanticNode, UiId};

fn color(r: f32, g: f32, b: f32, a: f32) -> ColorRgba {
    ColorRgba::rgba(r.to_bits(), g.to_bits(), b.to_bits(), a.to_bits())
}

fn rect(x: f32, y: f32, width: f32, height: f32) -> UiRect {
    UiRect { x: x.to_bits(), y: y.to_bits(), width: width.to_bits(), height: height.to_bits() }
}

#[test]
fn display_list_keeps_renderer_independent_commands() {
    let mut list = DisplayList::default();
    list.push(DisplayCommand::RoundedRect {
        id: UiId(7),
        rect: rect(0.0, 0.0, 100.0, 50.0),
        radius: 8.0f32.to_bits(),
        color: color(1.0, 1.0, 1.0, 0.82),
    });
    list.push(DisplayCommand::Text {
        id: UiId(8),
        origin: UiPoint { x: 8.0f32.to_bits(), y: 16.0f32.to_bits() },
        runs: vec![DisplayTextRun {
            text: "hello".to_string(),
            font_stack: TextEngineConfig::desktop_default().font_stack,
            size_px: 15.0f32.to_bits(),
            color: color(0.12, 0.13, 0.16, 1.0),
            attrs: TextAttributes::default(),
        }],
    });
    assert_eq!(list.commands.len(), 2);
}

#[test]
fn display_list_keeps_order_and_semantics() {
    let mut list = DisplayList::default();
    list.push(DisplayCommand::ClipStart { id: UiId(1), rect: rect(0.0, 0.0, 10.0, 10.0) });
    list.push(DisplayCommand::Image {
        id: UiId(2),
        rect: rect(1.0, 1.0, 2.0, 2.0),
        image: DisplayImageRef::PendingDecode("a.png".to_string()),
    });
    list.push(DisplayCommand::ClipEnd { id: UiId(1) });
    assert_eq!(list.commands[2], DisplayCommand::ClipEnd { id: UiId(1) });
    let node = SemanticNode { id: UiId(2), role: AccessibilityRole::Image, label: "a".to_string(), bounds: rect(1.0, 1.0, 2.0, 2.0) };
    list.extend_semantics(vec![node.clone()]);
    list.extend_semantics(Vec::new());
    assert_eq!(list.semantic_nodes, vec![node]);
    assert_eq!(list.commands.len(), 3);
}

#[test]
fn desktop_default_text_engine_uses_jetbrains_mono() {
    let config = TextEngineConfig::desktop_default();
    assert_eq!(config.shaping, TextShapingMode::UnicodeShaping);
    assert_eq!(config.font_stack.primary, "JetBrainsMono Nerd Font");
    assert_eq!(
        config.font_stack.fallbacks,
        vec!["JetBrainsMono Nerd Font Mono".to_string(), "JetBrains Mono".to_string(), "monospace".to_string()]
    );
    assert!(!config.enable_ligatures);
    assert!(config.enable_emoji_fallback);
}

#[test]
fn font_stack_keeps_fallback_order() {
    let stack = FontFallbackStack::new("Inter", &["Noto Sans", "sans-serif"]);
    assert_eq!(stack.primary, "Inter");
    assert_eq!(stack.fallbacks, vec!["Noto Sans".to_string(), "sans-serif".to_string()]);
    let alone = FontFallbackStack::new("Mono", &[]);
    assert!(alone.fallbacks.is_empty());
}

#[test]
fn tight_constraints_pin_the_size() {
    let size = UiSize { width: 640.0f32.to_bits(), height: 480.0f32.to_bits() };
    let constraints = LayoutConstraints::tight(size);
    assert_eq!(constraints.min, size);
    assert_eq!(constraints.max, size);
    assert_eq!(color(0.5, 0.25, 1.0, 1.0).g, 0.25f32.to_bits());
}
