use vstd::prelude::*;

verus! {

/// Which parts of a node (or surface) must be recomputed.
#[derive(Clone, Copy, Debug, PartialEq, Eq, Structural)]
pub struct DirtyFlags {
    pub layout: bool,
    pub paint: bool,
    pub text: bool,
    pub semantics: bool,
}

impl DirtyFlags {
    /// Whether at least one flag is raised.
    pub open spec fn spec_any(&self) -> bool {
        self.layout || self.paint || self.text || self.semantics
    }

    /// The flags with nothing raised.
    pub open spec fn none() -> DirtyFlags {
        DirtyFlags { layout: false, paint: false, text: false, semantics: false }
    }

    /// The flags with everything raised.
    pub open spec fn all() -> DirtyFlags {
        DirtyFlags { layout: true, paint: true, text: true, semantics: true }
    }

    /// Flag-wise union of two sets of flags.
    pub open spec fn union(self, other: DirtyFlags) -> DirtyFlags {
        DirtyFlags {
            layout: self.layout || other.layout,
            paint: self.paint || other.paint,
            text: self.text || other.text,
            semantics: self.semantics || other.semantics,
        }
    }

    #[verifier::when_used_as_spec(spec_any)]
    pub fn any(&self) -> (r: bool)
        ensures
            r == self.spec_any(),
            r == (self.layout || self.paint || self.text || self.semantics),
    {
        self.layout || self.paint || self.text || self.semantics
    }

    pub fn mark_all(&mut self)
        ensures
            *final(self) == DirtyFlags::all(),
    {
        self.layout = true;
        self.paint = true;
        self.text = true;
        self.semantics = true;
    }

    pub fn clear(&mut self)
        ensures
            *final(self) == DirtyFlags::none(),
    {
        *self = DirtyFlags::default();
    }
}

impl Default for DirtyFlags {
    fn default() -> (r: DirtyFlags)
        ensures
            r == DirtyFlags::none(),
    {
        DirtyFlags { layout: false, paint: false, text: false, semantics: false }
    }
}

/// Raising every flag leaves the flags dirty; clearing them leaves them
/// clean; the union of flags is dirty exactly when one side is.
pub proof fn law_mark_all_and_clear(a: DirtyFlags, b: DirtyFlags)
    ensures
        DirtyFlags::all().spec_any(),
        !DirtyFlags::none().spec_any(),
        a.union(b).spec_any() == (a.spec_any() || b.spec_any()),
        a.union(DirtyFlags::none()) == a,
{
}

/// A set of flags is dirty exactly when at least one of its four flags is
/// raised: any single raised flag (the text flag alone included) makes it
/// dirty, and with all four lowered it is clean.
pub proof fn law_any_flag_makes_dirty(f: DirtyFlags)
    ensures
        f.layout ==> f.spec_any(),
        f.paint ==> f.spec_any(),
        f.text ==> f.spec_any(),
        f.semantics ==> f.spec_any(),
        !f.layout && !f.paint && !f.text && !f.semantics ==> !f.spec_any(),
        (DirtyFlags { layout: false, paint: false, text: true, semantics: false }).spec_any(),
{
}

/// Merging flags works flag by flag: each merged flag is raised exactly when
/// the same flag is raised on either side, and no flag raises another.
pub proof fn law_union_is_flag_by_flag(a: DirtyFlags, b: DirtyFlags)
    ensures
        a.union(b).layout == (a.layout || b.layout),
        a.union(b).paint == (a.paint || b.paint),
        a.union(b).text == (a.text || b.text),
        a.union(b).semantics == (a.semantics || b.semantics),
{
}

} // verus!
