//! The failure kinds of container reading, name decoding and resolution.

use vstd::prelude::*;

verus! {

/// Why one catalog entry could not be processed. Every kind is a per-entry
/// failure: a driver reports it for the entry at hand and goes on with the
/// next entry.
#[derive(Debug)]
pub enum FontError {
    /// The byte region does not begin with a recognized font or collection
    /// signature, a collection declares no members, or a member's declared
    /// offsets lie outside the region.
    MalformedContainer,
    /// A member index does not address a member of the container.
    IndexOutOfRange,
    /// A member font has no naming table.
    MissingTable,
    /// A name record's string bytes lie outside the naming table's storage.
    UndecodableString,
    /// No member's PostScript name equals the requested name; `name` is the
    /// name that was requested.
    NameNotFound { name: String },
}

} // verus!
