//! The plain model of a font-container file.
//!
//! A container is read once, through the trusted boundary in [`crate::names`],
//! into the types here: plain values that hold exactly what resolution needs,
//! the decoded PostScript names of each member font. All logic downstream
//! works on this model and is verified against it.

use vstd::prelude::*;
use crate::error::FontError;

verus! {

/// One member font of a collection: the decoded texts of its naming table's
/// PostScript-name records, in table order.
pub struct FontMember {
    pub postscript_names: Vec<String>,
}

/// A read-only view of one font file: either a single font, or a collection
/// of at least one member font.
pub enum FontContainer {
    /// The file holds exactly one font. A standalone font file is trusted to
    /// correspond to its catalog entry, so no name data is kept for it.
    SingleFont,
    /// The file holds an ordered sequence of member fonts.
    Collection { members: Vec<FontMember> },
}

impl FontContainer {
    /// A collection holds at least one member.
    pub open spec fn wf(self) -> bool {
        match self {
            FontContainer::SingleFont => true,
            FontContainer::Collection { members } => members@.len() >= 1,
        }
    }

    /// How many fonts the container holds.
    pub open spec fn spec_member_count(self) -> nat {
        match self {
            FontContainer::SingleFont => 1,
            FontContainer::Collection { members } => members@.len(),
        }
    }

    /// The number of fonts in the container: one for a single font, the
    /// declared number of members for a collection.
    pub fn member_count(&self) -> (n: usize)
        ensures
            n == self.spec_member_count(),
    {
        match self {
            FontContainer::SingleFont => 1,
            FontContainer::Collection { members } => members.len(),
        }
    }

    /// The member font at index `i` of a collection. A single font carries
    /// no per-member name data, so every index is out of range for it.
    pub fn get_member(&self, i: usize) -> (r: Result<&FontMember, FontError>)
        ensures
            match r {
                Ok(m) => self matches FontContainer::Collection { members } && i < members@.len()
                    && *m == members@[i as int],
                Err(e) => {
                    &&& e is IndexOutOfRange
                    &&& match self {
                        FontContainer::SingleFont => true,
                        FontContainer::Collection { members } => i >= members@.len(),
                    }
                },
            },
    {
        match self {
            FontContainer::SingleFont => Err(FontError::IndexOutOfRange),
            FontContainer::Collection { members } => {
                if i < members.len() {
                    Ok(&members[i])
                } else {
                    Err(FontError::IndexOutOfRange)
                }
            },
        }
    }
}

} // verus!
