//! Reading a font file's bytes into the plain container model.

use vstd::prelude::*;
use crate::container::{FontContainer, FontMember};
use crate::error::FontError;
use crate::names::{
    collection_len, collection_member, collection_names, file_names, font_name_table, member_of,
    member_postscript_names, name_table_records, open_file_ref, ps_decodable, ps_names_of,
    FileNames, MemberNames, RawFile,
};
use skrifa::raw::CollectionRef;

verus! {

/// Reading one member of a collection succeeds: the member parses, it has a
/// naming table, and every PostScript-name record of that table decodes.
pub open spec fn member_loads(m: MemberNames) -> bool {
    match m {
        MemberNames::Records(rs) => ps_decodable(rs),
        _ => false,
    }
}

/// The model that loading a member yields: the decoded texts of the
/// member's PostScript-name records, in table order.
pub open spec fn member_models(m: FontMember, names: MemberNames) -> bool {
    match names {
        MemberNames::Records(rs) => ps_decodable(rs) && m.postscript_names@.map_values(
            |s: String| s@,
        ) == ps_names_of(rs),
        _ => false,
    }
}

/// Member `i` is the first whose loading fails.
pub open spec fn first_failing_member(ms: Seq<MemberNames>, i: int) -> bool {
    &&& 0 <= i < ms.len()
    &&& !member_loads(ms[i])
    &&& forall|k: int| 0 <= k < i ==> member_loads(#[trigger] ms[k])
}

/// The error that loading reports for a member that fails: a member whose
/// offsets do not parse is a malformed container, one without a naming
/// table misses a required table, and otherwise some PostScript-name
/// record of its naming table does not decode.
pub open spec fn member_error(m: MemberNames, e: FontError) -> bool {
    match m {
        MemberNames::Malformed => e is MalformedContainer,
        MemberNames::NoNameTable => e is MissingTable,
        MemberNames::Records(_) => e is UndecodableString,
    }
}

/// Reads one member of a collection into the plain model: parses the
/// member, locates its naming table and decodes the table's
/// PostScript-name records. Fails with `MalformedContainer` when the
/// member's offsets do not parse, `MissingTable` when it has no naming
/// table, and `UndecodableString` when a PostScript-name record's bytes do
/// not decode.
pub(crate) fn load_member(c: &CollectionRef<'_>, i: u32) -> (r: Result<FontMember, FontError>)
    requires
        (i as nat) < collection_names(*c).len(),
    ensures
        match r {
            Ok(m) => member_loads(collection_names(*c)[i as int]) && member_models(
                m,
                collection_names(*c)[i as int],
            ),
            Err(e) => !member_loads(collection_names(*c)[i as int]) && member_error(
                collection_names(*c)[i as int],
                e,
            ),
        },
{
    let font = match collection_member(c, i) {
        Ok(f) => f,
        Err(_) => {
            return Err(FontError::MalformedContainer);
        },
    };
    let table = match font_name_table(&font) {
        Ok(t) => t,
        Err(_) => {
            assert(collection_names(*c)[i as int] == member_of(
                crate::names::font_table_names(font),
            ));
            return Err(FontError::MissingTable);
        },
    };
    match member_postscript_names(&table) {
        Ok(v) => {
            assert(collection_names(*c)[i as int] == MemberNames::Records(
                name_table_records(table),
            ));
            Ok(FontMember { postscript_names: v })
        },
        Err(e) => {
            assert(collection_names(*c)[i as int] == MemberNames::Records(
                name_table_records(table),
            ));
            Err(e)
        },
    }
}

/// Parses a font file's top-level structure and reads every member's
/// PostScript names into the plain model.
///
/// Succeeds exactly when the bytes parse as a single font, or as a
/// collection with at least one member in which every member parses, has a
/// naming table, and has all its PostScript-name records decodable; the
/// model then holds each member's decoded PostScript names in member
/// order. Otherwise the error names the first failure: `MalformedContainer`
/// for an unrecognized signature, an empty collection or a member whose
/// offsets do not parse, `MissingTable` for a member without a naming
/// table, and `UndecodableString` for a PostScript-name record whose bytes
/// do not decode.
pub fn open(bytes: &[u8]) -> (r: Result<FontContainer, FontError>)
    ensures
        match r {
            Ok(c) => c.wf() && match file_names(bytes@) {
                Some(FileNames::Single) => c is SingleFont,
                Some(FileNames::Collection(ms)) => match c {
                    FontContainer::Collection { members } => {
                        &&& ms.len() >= 1
                        &&& members@.len() == ms.len()
                        &&& forall|i: int|
                            0 <= i < ms.len() ==> member_models(#[trigger] members@[i], ms[i])
                    },
                    _ => false,
                },
                None => false,
            },
            Err(e) => match file_names(bytes@) {
                None => e is MalformedContainer,
                Some(FileNames::Single) => false,
                Some(FileNames::Collection(ms)) => (ms.len() == 0 && e is MalformedContainer) || (
                exists|i: int| #[trigger] first_failing_member(ms, i) && member_error(ms[i], e)),
            },
        },
{
    let raw = match open_file_ref(bytes) {
        Ok(raw) => raw,
        Err(_) => {
            return Err(FontError::MalformedContainer);
        },
    };
    match raw {
        RawFile::Single(_) => Ok(FontContainer::SingleFont),
        RawFile::Collection(c) => {
            let ghost ms = crate::names::collection_names(c);
            let n = collection_len(&c);
            if n == 0 {
                return Err(FontError::MalformedContainer);
            }
            let mut members: Vec<FontMember> = Vec::new();
            let mut i: u32 = 0;
            while i < n
                invariant
                    n as nat == ms.len(),
                    i <= n,
                    ms == crate::names::collection_names(c),
                    file_names(bytes@) == Some(FileNames::Collection(ms)),
                    members@.len() == i as nat,
                    forall|k: int|
                        0 <= k < i ==> member_models(#[trigger] members@[k], ms[k]),
                    forall|k: int| 0 <= k < i ==> member_loads(#[trigger] ms[k]),
                decreases n - i,
            {
                let member = match load_member(&c, i) {
                    Ok(m) => m,
                    Err(e) => {
                        assert(first_failing_member(ms, i as int));
                        return Err(e);
                    },
                };
                members.push(member);
                i += 1;
            }
            Ok(FontContainer::Collection { members })
        },
    }
}

} // verus!
