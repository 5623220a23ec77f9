//! Renderer-independent drawing commands.
use vstd::prelude::*;
use crate::geometry::{ColorRgba, UiPoint, UiRect};
use crate::text::FontFallbackStack;
use crate::tree::{SemanticNode, UiId};

verus! {

#[derive(Clone, Copy, Debug, PartialEq, Eq, Hash, Structural)]
pub struct TextAttributes {
    pub bold: bool,
    pub italic: bool,
    pub underline: bool,
    pub monospace: bool,
}

impl Default for TextAttributes {
    /// Plain text: no attribute set.
    fn default() -> (r: TextAttributes)
        ensures
            r == (TextAttributes { bold: false, italic: false, underline: false, monospace: false }),
    {
        TextAttributes { bold: false, italic: false, underline: false, monospace: false }
    }
}

/// A run of text drawn with one font stack, size, colour and set of
/// attributes. `size_px` is the bit pattern of an `f32`.
#[derive(Clone, Debug, PartialEq)]
pub struct DisplayTextRun {
    pub text: String,
    pub font_stack: FontFallbackStack,
    pub size_px: u32,
    pub color: ColorRgba,
    pub attrs: TextAttributes,
}

/// Where the pixels of an image come from.
#[derive(Clone, Debug, PartialEq, Eq, Hash)]
pub enum DisplayImageRef {
    TextureId(String),
    AttachmentId(String),
    PendingDecode(String),
}

/// One drawing command. `radius` and `width` are bit patterns of `f32`
/// values.
#[derive(Clone, Debug, PartialEq)]
pub enum DisplayCommand {
    Rect { id: UiId, rect: UiRect, color: ColorRgba },
    RoundedRect { id: UiId, rect: UiRect, radius: u32, color: ColorRgba },
    Border { id: UiId, rect: UiRect, width: u32, color: ColorRgba },
    Text { id: UiId, origin: UiPoint, runs: Vec<DisplayTextRun> },
    Image { id: UiId, rect: UiRect, image: DisplayImageRef },
    ClipStart { id: UiId, rect: UiRect },
    ClipEnd { id: UiId },
}

/// Drawing commands in painting order, with what they tell assistive
/// technology.
#[derive(Clone, Debug, PartialEq)]
pub struct DisplayList {
    pub commands: Vec<DisplayCommand>,
    pub semantic_nodes: Vec<SemanticNode>,
}

impl DisplayList {
    /// Appends a command after all others.
    pub fn push(&mut self, command: DisplayCommand)
        ensures
            final(self).commands@ == old(self).commands@.push(command),
            final(self).semantic_nodes@ == old(self).semantic_nodes@,
    {
        self.commands.push(command);
    }

    /// Appends semantic descriptions after all others, in the order given.
    pub fn extend_semantics(&mut self, nodes: Vec<SemanticNode>)
        ensures
            final(self).semantic_nodes@ == old(self).semantic_nodes@ + nodes@,
            final(self).commands@ == old(self).commands@,
    {
        let mut nodes = nodes;
        self.semantic_nodes.append(&mut nodes);
    }
}

impl Default for DisplayList {
    /// A list with no commands and no semantic descriptions.
    fn default() -> (r: DisplayList)
        ensures
            r.commands@ == Seq::<DisplayCommand>::empty(),
            r.semantic_nodes@ == Seq::<SemanticNode>::empty(),
    {
        DisplayList { commands: Vec::new(), semantic_nodes: Vec::new() }
    }
}

} // verus!
