//! Font selection and text-engine configuration.
use vstd::prelude::*;

verus! {

/// The characters of each string of a sequence.
pub open spec fn texts(v: Seq<String>) -> Seq<Seq<char>> {
    v.map_values(|s: String| s@)
}

/// The characters of each string slice of a sequence.
pub open spec fn str_texts(v: Seq<&str>) -> Seq<Seq<char>> {
    v.map_values(|s: &str| s@)
}

/// A primary font family and the families tried, in order, after it.
#[derive(Clone, Debug, PartialEq, Eq, Hash)]
pub struct FontFallbackStack {
    pub primary: String,
    pub fallbacks: Vec<String>,
}

impl FontFallbackStack {
    pub fn new(primary: &str, fallbacks: &[&str]) -> (r: FontFallbackStack)
        ensures
            r.primary@ == primary@,
            texts(r.fallbacks@) == str_texts(fallbacks@),
    {
        let mut owned: Vec<String> = Vec::new();
        for i in 0..fallbacks.len()
            invariant
                texts(owned@) == str_texts(fallbacks@.take(i as int)),
        {
            let ghost prev = owned@;
            let name = fallbacks[i].to_owned();
            owned.push(name);
            proof {
                assert(fallbacks@.take(i + 1) == fallbacks@.take(i as int).push(fallbacks@[i as int]));
                assert(texts(owned@) =~= texts(prev).push(fallbacks@[i as int]@));
                assert(str_texts(fallbacks@.take(i + 1)) =~= str_texts(fallbacks@.take(i as int)).push(
                    fallbacks@[i as int]@,
                ));
            }
        }
        proof {
            assert(fallbacks@.take(fallbacks@.len() as int) == fallbacks@);
        }
        FontFallbackStack { primary: primary.to_owned(), fallbacks: owned }
    }
}

#[derive(Clone, Copy, Debug, PartialEq, Eq, Structural)]
pub enum TextShapingMode {
    BasicAscii,
    UnicodeShaping,
    PlatformNative,
}

#[derive(Clone, Debug, PartialEq, Eq)]
pub struct TextEngineConfig {
    pub shaping: TextShapingMode,
    pub font_stack: FontFallbackStack,
    pub enable_ligatures: bool,
    pub enable_emoji_fallback: bool,
}

impl TextEngineConfig {
    /// Unicode shaping over JetBrains Mono (Nerd Font first), falling back to
    /// the generic monospace family; no ligatures, emoji fallback on.
    pub fn desktop_default() -> (r: TextEngineConfig)
        ensures
            r.shaping == TextShapingMode::UnicodeShaping,
            r.font_stack.primary@ == "JetBrainsMono Nerd Font"@,
            texts(r.font_stack.fallbacks@) == seq![
                "JetBrainsMono Nerd Font Mono"@,
                "JetBrains Mono"@,
                "monospace"@,
            ],
            !r.enable_ligatures,
            r.enable_emoji_fallback,
    {
        let fallbacks: [&str; 3] = ["JetBrainsMono Nerd Font Mono", "JetBrains Mono", "monospace"];
        let font_stack = FontFallbackStack::new("JetBrainsMono Nerd Font", fallbacks.as_slice());
        proof {
            assert(str_texts(fallbacks@) =~= seq![
                "JetBrainsMono Nerd Font Mono"@,
                "JetBrains Mono"@,
                "monospace"@,
            ]);
        }
        TextEngineConfig {
            shaping: TextShapingMode::UnicodeShaping,
            font_stack,
            enable_ligatures: false,
            enable_emoji_fallback: true,
        }
    }
}

} // verus!
