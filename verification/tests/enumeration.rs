//! Flattening the catalog's families into enumeration order.

use fontresolve::catalog::{for_each_system_font, FontIdentifier};

fn ident(name: &str, path: &str) -> FontIdentifier {
    FontIdentifier { postscript_name: name.to_string(), path: path.to_string() }
}

#[test]
fn families_flatten_in_catalog_order() {
    let families = vec![
        vec![ident("Arial-Regular", "/fonts/arial.ttc"), ident("Arial-Bold", "/fonts/arial.ttc")],
        vec![],
        vec![ident("Menlo-Regular", "/fonts/menlo.ttc")],
    ];
    let flat = for_each_system_font(families);
    assert_eq!(
        flat,
        vec![
            ident("Arial-Regular", "/fonts/arial.ttc"),
            ident("Arial-Bold", "/fonts/arial.ttc"),
            ident("Menlo-Regular", "/fonts/menlo.ttc"),
        ]
    );
}

#[test]
fn empty_catalog_flattens_to_nothing() {
    let flat = for_each_system_font(Vec::new());
    assert!(flat.is_empty());
}
