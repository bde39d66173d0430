//! Catalog entries: the identifiers under which the host's font catalog
//! lists its font variations.

use vstd::prelude::*;

verus! {

/// An identifier for one local font variation, as the host's font catalog
/// reports it: the variation's PostScript name and the path of the file
/// that backs it. Both fields are required; a variation without a path is
/// not enumerated.
#[derive(Clone, Debug, Eq, Hash, PartialEq)]
pub struct FontIdentifier {
    pub postscript_name: String,
    pub path: String,
}

/// The members of a sequence of families, flattened in enumeration order:
/// family by family, and within a family in the catalog's variation order.
pub open spec fn flat_of(s: Seq<Seq<FontIdentifier>>) -> Seq<FontIdentifier>
    decreases s.len(),
{
    if s.len() == 0 {
        Seq::empty()
    } else {
        s.first() + flat_of(s.drop_first())
    }
}

/// Flattens the catalog's families, each a sequence of variations, into
/// the order in which an enumeration pass visits them: families in the
/// catalog's order, and within each family its variations in order.
pub fn for_each_system_font(families: Vec<Vec<FontIdentifier>>) -> (r: Vec<FontIdentifier>)
    ensures
        r@ == flat_of(families@.map_values(|v: Vec<FontIdentifier>| v@)),
{
    let ghost total = flat_of(families@.map_values(|v: Vec<FontIdentifier>| v@));
    let mut rest = families;
    let mut out: Vec<FontIdentifier> = Vec::new();
    while rest.len() > 0
        invariant
            total == out@ + flat_of(rest@.map_values(|v: Vec<FontIdentifier>| v@)),
        decreases rest@.len(),
    {
        let ghost before = rest@.map_values(|v: Vec<FontIdentifier>| v@);
        let mut fam = rest.remove(0);
        proof {
            assert(rest@.map_values(|v: Vec<FontIdentifier>| v@) =~= before.drop_first());
            assert(before.first() == fam@);
        }
        while fam.len() > 0
            invariant
                total == out@ + fam@ + flat_of(rest@.map_values(|v: Vec<FontIdentifier>| v@)),
            decreases fam@.len(),
        {
            let ghost fam_before = fam@;
            let ghost out_before = out@;
            let x = fam.remove(0);
            out.push(x);
            proof {
                assert(fam@ =~= fam_before.drop_first());
                assert(out@ + fam@ =~= out_before + fam_before);
            }
        }
    }
    proof {
        assert(rest@.map_values(|v: Vec<FontIdentifier>| v@).len() == 0);
        assert(out@ =~= total);
    }
    out
}

} // verus!
