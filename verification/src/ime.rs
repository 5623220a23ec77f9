//! State of an input-method composition.
use vstd::prelude::*;

verus! {

#[derive(Clone, Debug, PartialEq, Eq)]
pub struct ImeState {
    pub active: bool,
    pub preedit: String,
    pub cursor_byte_range: Option<(usize, usize)>,
}

/// What an [`ImeState`] holds, with the preedit text as characters.
pub ghost struct ImeView {
    pub active: bool,
    pub preedit: Seq<char>,
    pub cursor_byte_range: Option<(usize, usize)>,
}

impl ImeView {
    /// No composition in progress.
    pub open spec fn idle() -> ImeView {
        ImeView { active: false, preedit: Seq::<char>::empty(), cursor_byte_range: None }
    }

    /// The state once `text` is the preedit text, with `cursor` as its cursor.
    pub open spec fn with_preedit(self, text: Seq<char>, cursor: Option<(usize, usize)>) -> ImeView {
        ImeView { active: true, preedit: text, cursor_byte_range: cursor }
    }

    /// The text a commit hands out, and the state it leaves.
    pub open spec fn committed(self) -> (Seq<char>, ImeView) {
        (self.preedit, ImeView::idle())
    }
}

impl View for ImeState {
    type V = ImeView;

    open spec fn view(&self) -> ImeView {
        ImeView {
            active: self.active,
            preedit: self.preedit@,
            cursor_byte_range: self.cursor_byte_range,
        }
    }
}

impl ImeState {
    /// Starts or updates a composition with `text` and its cursor.
    pub fn apply_preedit(&mut self, text: &str, cursor: Option<(usize, usize)>)
        ensures
            final(self)@ == old(self)@.with_preedit(text@, cursor),
    {
        self.active = true;
        self.preedit = text.to_owned();
        self.cursor_byte_range = cursor;
    }

    /// Ends the composition and hands out its text.
    pub fn commit(&mut self) -> (r: String)
        ensures
            (r@, final(self)@) == old(self)@.committed(),
    {
        self.active = false;
        self.cursor_byte_range = None;
        let mut taken = String::new();
        std::mem::swap(&mut taken, &mut self.preedit);
        taken
    }
}

impl Default for ImeState {
    /// No composition in progress.
    fn default() -> (r: ImeState)
        ensures
            r@ == ImeView::idle(),
    {
        ImeState { active: false, preedit: String::new(), cursor_byte_range: None }
    }
}

/// Committing hands out exactly the text last applied as preedit and leaves
/// no composition in progress, whatever the state was before.
pub proof fn law_commit_returns_applied_preedit(
    s: ImeView,
    text: Seq<char>,
    cursor: Option<(usize, usize)>,
)
    ensures
        s.with_preedit(text, cursor).committed().0 == text,
        s.with_preedit(text, cursor).committed().1 == ImeView::idle(),
{
}

/// Applying a preedit always starts (or continues) a composition, whatever
/// the text, the empty text included, and records the text and cursor as
/// given.
pub proof fn law_preedit_makes_active(s: ImeView, text: Seq<char>, cursor: Option<(usize, usize)>)
    ensures
        s.with_preedit(text, cursor).active,
        s.with_preedit(text, cursor).preedit == text,
        s.with_preedit(text, cursor).cursor_byte_range == cursor,
        s.with_preedit(Seq::<char>::empty(), cursor).active,
{
}

} // verus!
