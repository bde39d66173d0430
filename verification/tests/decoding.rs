//! Reading and resolving real container bytes through the `skrifa` boundary.

use fontresolve::container::FontContainer;
use fontresolve::error::FontError;
use fontresolve::reader::open;
use fontresolve::resolver::{resolve_in_file, resolve_index};
use std::time::Instant;

fn be16(v: u16) -> [u8; 2] {
    v.to_be_bytes()
}

fn be32(v: u32) -> [u8; 4] {
    v.to_be_bytes()
}

/// Encodes text as the big-endian UTF-16 of a name record.
fn utf16be(s: &str) -> Vec<u8> {
    s.encode_utf16().flat_map(|u| u.to_be_bytes()).collect()
}

/// A raw name record: platform, encoding, name identifier, declared string
/// length and declared offset into the storage area.
type RawRecord = (u16, u16, u16, u16, u16);

/// Builds a naming table from raw records and a storage area.
fn name_table_raw(records: &[RawRecord], storage: &[u8]) -> Vec<u8> {
    let count = records.len() as u16;
    let mut out = Vec::new();
    out.extend(be16(0)); // version
    out.extend(be16(count));
    out.extend(be16(6 + 12 * count)); // storage starts right after the records
    for &(platform, encoding, name_id, length, offset) in records {
        out.extend(be16(platform));
        out.extend(be16(encoding));
        out.extend(be16(0)); // language
        out.extend(be16(name_id));
        out.extend(be16(length));
        out.extend(be16(offset));
    }
    out.extend(storage);
    out
}

/// Builds a naming table holding the given (platform, encoding, name id,
/// string bytes) records, laid out back to back.
fn name_table(records: &[(u16, u16, u16, Vec<u8>)]) -> Vec<u8> {
    let mut raw = Vec::new();
    let mut storage = Vec::new();
    for (platform, encoding, name_id, bytes) in records {
        raw.push((*platform, *encoding, *name_id, bytes.len() as u16, storage.len() as u16));
        storage.extend(bytes);
    }
    name_table_raw(&raw, &storage)
}

/// A naming table whose every record carries the PostScript name
/// identifier and UTF-16 text.
fn postscript_table(names: &[&str]) -> Vec<u8> {
    let records: Vec<(u16, u16, u16, Vec<u8>)> =
        names.iter().map(|s| (3, 1, 6, utf16be(s))).collect();
    name_table(&records)
}

/// Builds a table directory for one member font whose only table is the
/// naming table at the given absolute offset.
fn table_directory(name_table_offset: u32, name_table_len: u32) -> Vec<u8> {
    let mut out = Vec::new();
    out.extend(be32(0x0001_0000)); // sfnt version
    out.extend(be16(1)); // one table
    out.extend(be16(16));
    out.extend(be16(0));
    out.extend(be16(0));
    out.extend(b"name");
    out.extend(be32(0)); // checksum, unchecked
    out.extend(be32(name_table_offset));
    out.extend(be32(name_table_len));
    out
}

/// Builds a table directory that declares no tables at all.
fn empty_table_directory() -> Vec<u8> {
    let mut out = Vec::new();
    out.extend(be32(0x0001_0000));
    out.extend(be16(0));
    out.extend(be16(0));
    out.extend(be16(0));
    out.extend(be16(0));
    out
}

/// Builds a font-collection file. Each member either has the given naming
/// table, or no tables at all.
fn collection_file(members: &[Option<Vec<u8>>]) -> Vec<u8> {
    let n = members.len();
    let header_len = 12 + 4 * n;
    let mut dir_offsets = Vec::new();
    let mut pos = header_len;
    for m in members {
        dir_offsets.push(pos as u32);
        pos += if m.is_some() { 28 } else { 12 };
    }
    let mut dirs = Vec::new();
    let mut tables = Vec::new();
    for m in members {
        match m {
            Some(table) => {
                dirs.push(table_directory(pos as u32, table.len() as u32));
                tables.extend(table.iter().copied());
                pos += table.len();
            }
            None => dirs.push(empty_table_directory()),
        }
    }
    let mut out = Vec::new();
    out.extend(b"ttcf");
    out.extend(be16(1));
    out.extend(be16(0));
    out.extend(be32(n as u32));
    for off in dir_offsets {
        out.extend(be32(off));
    }
    for d in dirs {
        out.extend(d);
    }
    out.extend(tables);
    out
}

#[test]
fn single_font_file_resolves_to_zero() {
    let bytes = empty_table_directory();
    assert!(matches!(open(&bytes), Ok(FontContainer::SingleFont)));
    assert_eq!(resolve_in_file(&bytes, "AnyNameAtAll").unwrap(), 0);
}

#[test]
fn collection_resolves_each_name_to_its_member() {
    let bytes = collection_file(&[
        Some(postscript_table(&["Arial-Regular"])),
        Some(postscript_table(&["Arial-Bold"])),
        Some(postscript_table(&["Arial-Italic"])),
    ]);
    let start = Instant::now();
    assert_eq!(resolve_in_file(&bytes, "Arial-Bold").unwrap(), 1);
    assert!(start.elapsed().as_micros() < 2_000_000);
    // A name that no member carries fails with the requested name, and the
    // other entries of the batch stay resolvable afterwards.
    match resolve_in_file(&bytes, "Arial-Black").unwrap_err() {
        FontError::NameNotFound { name } => assert_eq!(name, "Arial-Black"),
        other => panic!("expected NameNotFound, got {:?}", other),
    }
    assert_eq!(resolve_in_file(&bytes, "Arial-Regular").unwrap(), 0);
    assert_eq!(resolve_in_file(&bytes, "Arial-Italic").unwrap(), 2);
}

#[test]
fn decoding_is_invariant_to_encoding_choice() {
    // The same text once as big-endian UTF-16 (platform 3, encoding 1),
    // once as Mac Roman (platform 1, encoding 0), where 0x8E encodes é.
    let mac_roman_cafe = vec![b'C', b'a', b'f', 0x8E];
    let table = name_table(&[(3, 1, 6, utf16be("Café")), (1, 0, 6, mac_roman_cafe)]);
    let bytes = collection_file(&[Some(table)]);
    let container = open(&bytes).unwrap();
    let member = container.get_member(0).unwrap();
    assert_eq!(member.postscript_names, vec!["Café".to_string(), "Café".to_string()]);
    assert_eq!(resolve_index(&container, "Café").unwrap(), 0);
}

#[test]
fn records_without_the_postscript_identifier_are_ignored() {
    // Name id 1 is a family name, not a PostScript name.
    let table = name_table(&[(3, 1, 1, utf16be("Arial")), (3, 1, 6, utf16be("Arial-Regular"))]);
    let bytes = collection_file(&[Some(table)]);
    let container = open(&bytes).unwrap();
    assert_eq!(
        container.get_member(0).unwrap().postscript_names,
        vec!["Arial-Regular".to_string()]
    );
    assert_eq!(resolve_index(&container, "Arial-Regular").unwrap(), 0);
    match resolve_index(&container, "Arial").unwrap_err() {
        FontError::NameNotFound { name } => assert_eq!(name, "Arial"),
        other => panic!("expected NameNotFound, got {:?}", other),
    }
}

#[test]
fn unrecognized_bytes_are_a_malformed_container() {
    assert!(matches!(open(&[]), Err(FontError::MalformedContainer)));
    assert!(matches!(open(b"not a font"), Err(FontError::MalformedContainer)));
}

#[test]
fn empty_collection_is_a_malformed_container() {
    let bytes = collection_file(&[]);
    assert!(matches!(open(&bytes), Err(FontError::MalformedContainer)));
}

#[test]
fn member_offset_past_the_end_is_a_malformed_container() {
    let mut out = Vec::new();
    out.extend(b"ttcf");
    out.extend(be16(1));
    out.extend(be16(0));
    out.extend(be32(1));
    out.extend(be32(10_000)); // the member's directory lies outside the file
    assert!(matches!(open(&out), Err(FontError::MalformedContainer)));
}

#[test]
fn member_without_naming_table_is_a_missing_table() {
    let bytes = collection_file(&[Some(postscript_table(&["First"])), None]);
    assert!(matches!(open(&bytes), Err(FontError::MissingTable)));
}

#[test]
fn damaged_trailing_member_does_not_block_earlier_matches() {
    // The last member lacks a naming table, but the scan stops at the
    // first match and never reads it.
    let bytes = collection_file(&[
        Some(postscript_table(&["Arial-Regular"])),
        Some(postscript_table(&["Arial-Bold"])),
        None,
    ]);
    assert_eq!(resolve_in_file(&bytes, "Arial-Regular").unwrap(), 0);
    assert_eq!(resolve_in_file(&bytes, "Arial-Bold").unwrap(), 1);
    // A scan that has to go past the damaged member still fails on it.
    assert!(matches!(
        resolve_in_file(&bytes, "Arial-Black"),
        Err(FontError::MissingTable)
    ));
}

#[test]
fn undecodable_trailing_member_does_not_block_earlier_matches() {
    let broken = name_table_raw(&[(3, 1, 6, 10, 500)], &[0x00]);
    let bytes = collection_file(&[Some(postscript_table(&["First"])), Some(broken)]);
    assert_eq!(resolve_in_file(&bytes, "First").unwrap(), 0);
    assert!(matches!(
        resolve_in_file(&bytes, "Second"),
        Err(FontError::UndecodableString)
    ));
}

#[test]
fn record_bytes_outside_storage_are_undecodable() {
    // The record claims 10 bytes at offset 500 of a 2-byte storage area.
    let table = name_table_raw(&[(3, 1, 6, 10, 500)], &[0x00, 0x41]);
    let bytes = collection_file(&[Some(table)]);
    assert!(matches!(open(&bytes), Err(FontError::UndecodableString)));
}
