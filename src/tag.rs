use vstd::prelude::*;

verus! {

/// An opaque signed correlation value that a sender attaches to a message,
/// and on which a receiver may filter.
#[derive(Clone, Copy, Debug, PartialEq, Eq, Structural, Hash)]
pub struct Tag {
    pub id: i64,
}

impl Tag {
    /// The correlation value this tag carries.
    pub fn id(&self) -> (r: i64)
        ensures
            r == self.id,
    {
        self.id
    }
}

impl From<i64> for Tag {
    fn from(id: i64) -> (r: Tag)
        ensures
            r.id == id,
    {
        Tag { id }
    }
}

impl vstd::std_specs::convert::FromSpecImpl<i64> for Tag {
    open spec fn obeys_from_spec() -> bool {
        true
    }

    open spec fn from_spec(id: i64) -> Tag {
        Tag { id }
    }
}

} // verus!
