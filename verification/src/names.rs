//! The trusted boundary to the `skrifa` font-parsing crate, and the verified
//! decoding of a member font's PostScript names.
//!
//! `skrifa` parses the container and decodes name-record strings; its types
//! are opaque here. What each of its calls returns is a function of the
//! file's bytes alone, so the contents that this crate reads are given
//! uninterpreted names (`file_names`, `collection_names`, `font_table_names`,
//! `name_table_records`), and every wrapper's contract speaks over those
//! names. Everything downstream of the wrappers is verified.

use vstd::prelude::*;
use crate::error::FontError;
use skrifa::raw::tables::name::Name;
use skrifa::raw::{CollectionRef, FileRef, FontRef, ReadError, TableProvider};

verus! {

/// The name identifier of a PostScript name record in a naming table.
pub const POSTSCRIPT_NAME_ID: u16 = 6;

#[verifier::external_type_specification]
#[verifier::external_body]
pub struct ExFontRef<'a>(FontRef<'a>);

#[verifier::external_type_specification]
#[verifier::external_body]
pub struct ExCollectionRef<'a>(CollectionRef<'a>);

#[verifier::external_type_specification]
#[verifier::external_body]
pub struct ExName<'a>(Name<'a>);

#[verifier::external_type_specification]
#[verifier::external_body]
pub struct ExReadError(ReadError);

/// What one record of a naming table holds: its name identifier, and its
/// decoded text, or `None` when the record's string bytes lie outside the
/// table's storage area.
pub struct RecordRepr {
    pub id: u16,
    pub text: Option<Seq<char>>,
}

/// What reading one member font of a collection yields.
pub enum MemberNames {
    /// The member's declared offsets do not parse.
    Malformed,
    /// The member parses but has no naming table.
    NoNameTable,
    /// The records of the member's naming table.
    Records(Seq<RecordRepr>),
}

/// What parsing a font file's top-level structure yields.
pub enum FileNames {
    /// The file holds a single font.
    Single,
    /// The file is a collection; one entry per declared member.
    Collection(Seq<MemberNames>),
}

/// The records of a naming table. Parsing and decoding depend on the
/// table's bytes alone, so this is a function of the table value.
pub uninterp spec fn name_table_records(t: Name) -> Seq<RecordRepr>;

/// What `TableProvider::name` yields for a member font: the records of its
/// naming table, or `None` when it has no such table.
pub uninterp spec fn font_table_names(f: FontRef) -> Option<Seq<RecordRepr>>;

/// What reading each declared member of a collection yields, in member
/// order; one entry per declared member.
pub uninterp spec fn collection_names(c: CollectionRef) -> Seq<MemberNames>;

/// What `FileRef::new` yields on a byte region: `None` when the region
/// does not begin with a recognized font or collection signature.
pub uninterp spec fn file_names(bytes: Seq<u8>) -> Option<FileNames>;

/// Reading a member yields `Records` when it parses and has a naming table.
pub open spec fn member_of(o: Option<Seq<RecordRepr>>) -> MemberNames {
    match o {
        Option::Some(rs) => MemberNames::Records(rs),
        Option::None => MemberNames::NoNameTable,
    }
}

/// A font file parsed to its top level: a single font, or a collection.
pub enum RawFile<'a> {
    Single(FontRef<'a>),
    Collection(CollectionRef<'a>),
}

/// Relies on `read_fonts::FileRef::new`: it recognizes the file's leading
/// signature and yields a single font or a collection, deterministically
/// from the bytes.
#[verifier::external_body]
pub(crate) fn open_file_ref(bytes: &[u8]) -> (r: Result<RawFile<'_>, ReadError>)
    ensures
        match r {
            Ok(raw) => match raw {
                RawFile::Single(_) => file_names(bytes@) == Some(FileNames::Single),
                RawFile::Collection(c) => file_names(bytes@) == Some(
                    FileNames::Collection(collection_names(c)),
                ),
            },
            Err(_) => file_names(bytes@) is None,
        },
{
    match FileRef::new(bytes) {
        Ok(FileRef::Font(f)) => Ok(RawFile::Single(f)),
        Ok(FileRef::Collection(c)) => Ok(RawFile::Collection(c)),
        Err(e) => Err(e),
    }
}

/// Relies on `read_fonts::CollectionRef::len`: the number of members the
/// collection's header declares.
#[verifier::external_body]
pub(crate) fn collection_len(c: &CollectionRef<'_>) -> (n: u32)
    ensures
        n as nat == collection_names(*c).len(),
{
    c.len()
}

/// Relies on `read_fonts::CollectionRef::get`: it parses the member at the
/// given index and fails when the member's declared offsets do not parse.
#[verifier::external_body]
pub(crate) fn collection_member<'a>(c: &CollectionRef<'a>, i: u32) -> (r: Result<
    FontRef<'a>,
    ReadError,
>)
    requires
        (i as nat) < collection_names(*c).len(),
    ensures
        match r {
            Ok(f) => collection_names(*c)[i as int] == member_of(font_table_names(f)),
            Err(_) => collection_names(*c)[i as int] is Malformed,
        },
{
    c.get(i)
}

/// Relies on `read_fonts::TableProvider::name`: it locates and parses the
/// font's naming table and fails when the font has none (or it does not
/// parse).
#[verifier::external_body]
pub(crate) fn font_name_table<'a>(f: &FontRef<'a>) -> (r: Result<Name<'a>, ReadError>)
    ensures
        match r {
            Ok(t) => font_table_names(*f) == Some(name_table_records(t)),
            Err(_) => font_table_names(*f) is None,
        },
{
    f.name()
}

/// Relies on `read_fonts::tables::name::Name::name_record`: the table's
/// record array, whose length bounds the indices of the wrappers below.
#[verifier::external_body]
pub(crate) fn name_record_count(t: &Name<'_>) -> (n: usize)
    ensures
        n == name_table_records(*t).len(),
{
    t.name_record().len()
}

/// Relies on `read_fonts::tables::name::NameRecord::name_id`: the record's
/// name identifier.
#[verifier::external_body]
pub(crate) fn record_name_id(t: &Name<'_>, i: usize) -> (id: u16)
    requires
        i < name_table_records(*t).len(),
    ensures
        id == name_table_records(*t)[i as int].id,
{
    t.name_record()[i].name_id().to_u16()
}

/// Relies on `read_fonts::tables::name::NameRecord::string` and
/// `NameString::chars`: they slice the record's bytes out of the table's
/// storage, failing when the bytes lie outside it, and decode them by the
/// encoding the record's platform and encoding fields imply.
#[verifier::external_body]
pub(crate) fn record_text(t: &Name<'_>, i: usize) -> (r: Result<String, ReadError>)
    requires
        i < name_table_records(*t).len(),
    ensures
        match r {
            Ok(s) => name_table_records(*t)[i as int].text == Some(s@),
            Err(_) => name_table_records(*t)[i as int].text is None,
        },
{
    match t.name_record()[i].string(t.string_data()) {
        Ok(ns) => Ok(ns.chars().collect()),
        Err(e) => Err(e),
    }
}

/// Every PostScript-name record of the table decodes.
pub open spec fn ps_decodable(rs: Seq<RecordRepr>) -> bool {
    forall|k: int|
        0 <= k < rs.len() ==> ((#[trigger] rs[k]).id == POSTSCRIPT_NAME_ID ==> rs[k].text is Some)
}

/// The decoded texts of the table's PostScript-name records, in table order.
pub open spec fn ps_names_of(rs: Seq<RecordRepr>) -> Seq<Seq<char>>
    decreases rs.len(),
{
    if rs.len() == 0 {
        Seq::empty()
    } else {
        let prefix = ps_names_of(rs.drop_last());
        let last = rs.last();
        if last.id == POSTSCRIPT_NAME_ID {
            match last.text {
                Option::Some(text) => prefix.push(text),
                Option::None => prefix,
            }
        } else {
            prefix
        }
    }
}

/// The decoded texts of a member's PostScript-name records, in table order.
/// Fails with `UndecodableString` exactly when some PostScript-name record
/// of the table does not decode.
pub(crate) fn member_postscript_names(t: &Name<'_>) -> (r: Result<Vec<String>, FontError>)
    ensures
        match r {
            Ok(v) => ps_decodable(name_table_records(*t)) && v@.map_values(|s: String| s@)
                == ps_names_of(name_table_records(*t)),
            Err(e) => e is UndecodableString && !ps_decodable(name_table_records(*t)),
        },
{
    let ghost rs = name_table_records(*t);
    let n = name_record_count(t);
    let mut out: Vec<String> = Vec::new();
    let mut j: usize = 0;
    while j < n
        invariant
            n == rs.len(),
            j <= n,
            rs == name_table_records(*t),
            forall|k: int|
                0 <= k < j ==> ((#[trigger] rs[k]).id == POSTSCRIPT_NAME_ID ==> rs[k].text
                    is Some),
            out@.map_values(|s: String| s@) == ps_names_of(rs.take(j as int)),
        decreases n - j,
    {
        let ghost prev = out@.map_values(|s: String| s@);
        let id = record_name_id(t, j);
        if id == POSTSCRIPT_NAME_ID {
            match record_text(t, j) {
                Ok(s) => {
                    out.push(s);
                },
                Err(_) => {
                    assert(!ps_decodable(rs));
                    return Err(FontError::UndecodableString);
                },
            }
        }
        proof {
            assert(rs.take(j + 1 as int).drop_last() =~= rs.take(j as int));
            assert(rs.take(j + 1 as int).last() == rs[j as int]);
            assert(out@.map_values(|s: String| s@) =~= ps_names_of(rs.take(j + 1 as int)));
        }
        j += 1;
    }
    proof {
        assert(rs.take(n as int) =~= rs);
    }
    Ok(out)
}

} // verus!
