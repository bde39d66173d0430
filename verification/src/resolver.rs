//! Resolution of a target PostScript name to a member index.

use vstd::prelude::*;
use crate::container::{FontContainer, FontMember};
use crate::error::FontError;
use crate::names::{
    collection_len, collection_names, file_names, open_file_ref, ps_names_of, FileNames,
    MemberNames, RawFile,
};
use crate::reader::{load_member, member_error, member_loads, member_models};

verus! {

/// One of the member's PostScript names equals the target.
pub open spec fn member_matches(m: FontMember, target: Seq<char>) -> bool {
    exists|j: int|
        0 <= j < m.postscript_names@.len() && (#[trigger] m.postscript_names@[j])@ == target
}

/// Member `i` matches the target and no member before it does.
pub open spec fn is_first_match(members: Seq<FontMember>, target: Seq<char>, i: int) -> bool {
    &&& 0 <= i < members.len()
    &&& member_matches(members[i], target)
    &&& forall|k: int| 0 <= k < i ==> !member_matches(#[trigger] members[k], target)
}

/// As read from a member of a collection: one of the decoded PostScript
/// names of the member's naming table equals the target.
pub open spec fn names_match(m: MemberNames, target: Seq<char>) -> bool {
    match m {
        MemberNames::Records(rs) => ps_names_of(rs).contains(target),
        _ => false,
    }
}

/// Whether one member's PostScript names equal the target.
fn member_has_name(m: &FontMember, target: &String) -> (b: bool)
    ensures
        b == member_matches(*m, target@),
{
    let n = m.postscript_names.len();
    let mut j: usize = 0;
    while j < n
        invariant
            j <= n,
            n == m.postscript_names@.len(),
            forall|k: int| 0 <= k < j ==> (#[trigger] m.postscript_names@[k])@ != target@,
        decreases n - j,
    {
        if m.postscript_names[j] == *target {
            assert(m.postscript_names@[j as int]@ == target@);
            return true;
        }
        j += 1;
    }
    false
}

/// Finds the member of the container whose PostScript name equals the
/// target.
///
/// A single font is trusted to correspond to its catalog entry, so its
/// index is 0 whatever the target. In a collection, members are scanned in
/// ascending index order and the first whose decoded PostScript names
/// contain the target wins; when none matches, the call fails with
/// `NameNotFound` carrying the requested name. Resolution reads the
/// container and never changes it.
pub fn resolve_index(container: &FontContainer, target: &str) -> (r: Result<usize, FontError>)
    ensures
        match r {
            Ok(i) => match *container {
                FontContainer::SingleFont => i == 0,
                FontContainer::Collection { members } => is_first_match(
                    members@,
                    target@,
                    i as int,
                ),
            },
            Err(e) => {
                &&& match *container {
                    FontContainer::SingleFont => false,
                    FontContainer::Collection { members } => forall|k: int|
                        0 <= k < members@.len() ==> !member_matches(
                            #[trigger] members@[k],
                            target@,
                        ),
                }
                &&& e matches FontError::NameNotFound { name } && name@ == target@
            },
        },
{
    match container {
        FontContainer::SingleFont => Ok(0),
        FontContainer::Collection { members } => {
            let wanted: String = target.to_owned();
            let n = members.len();
            let mut i: usize = 0;
            while i < n
                invariant
                    *container == (FontContainer::Collection { members: *members }),
                    i <= n,
                    n == members@.len(),
                    wanted@ == target@,
                    forall|k: int|
                        0 <= k < i ==> !member_matches(#[trigger] members@[k], target@),
                decreases n - i,
            {
                if member_has_name(&members[i], &wanted) {
                    return Ok(i);
                }
                i += 1;
            }
            Err(FontError::NameNotFound { name: wanted })
        },
    }
}

/// What a member loaded into the model matches is what its naming table
/// holds: under `member_models`, a target equals one of the model's
/// PostScript names exactly when it equals one of the table's decoded
/// PostScript names.
pub proof fn lemma_models_match(m: FontMember, names: MemberNames, target: Seq<char>)
    requires
        member_models(m, names),
    ensures
        member_matches(m, target) <==> names_match(names, target),
{
    match names {
        MemberNames::Records(rs) => {
            let mapped = m.postscript_names@.map_values(|s: String| s@);
            if member_matches(m, target) {
                let j = choose|j: int|
                    0 <= j < m.postscript_names@.len() && (#[trigger] m.postscript_names@[j])@
                        == target;
                assert(mapped[j] == target);
                assert(ps_names_of(rs).contains(target));
            }
            if names_match(names, target) {
                let j = choose|j: int| 0 <= j < ps_names_of(rs).len() && ps_names_of(rs)[j] == target;
                assert(mapped[j] == target);
                assert(m.postscript_names@[j]@ == target);
            }
        },
        _ => {},
    }
}

/// Among the members at or before a matching one there is a first match.
pub proof fn lemma_first_match_exists(members: Seq<FontMember>, target: Seq<char>, k: int)
    requires
        0 <= k < members.len(),
        member_matches(members[k], target),
    ensures
        exists|m: int| #[trigger] is_first_match(members, target, m) && m <= k,
    decreases k,
{
    if forall|i: int| 0 <= i < k ==> !member_matches(#[trigger] members[i], target) {
        assert(is_first_match(members, target, k));
    } else {
        let i = choose|i: int| 0 <= i < k && member_matches(#[trigger] members[i], target);
        lemma_first_match_exists(members, target, i);
        let m = choose|m: int| #[trigger] is_first_match(members, target, m) && m <= i;
        assert(is_first_match(members, target, m) && m <= k);
    }
}

/// Ties break downward: when two members share the target name, resolution
/// settles on an index no larger than the smaller of the two, and that
/// index matches.
pub proof fn lemma_duplicate_name_smaller_index(
    members: Seq<FontMember>,
    target: Seq<char>,
    i: int,
    j: int,
)
    requires
        0 <= i < j < members.len(),
        member_matches(members[i], target),
        member_matches(members[j], target),
    ensures
        exists|m: int| #[trigger] is_first_match(members, target, m) && m <= i,
{
    lemma_first_match_exists(members, target, i);
}

/// A collection whose members each carry one PostScript name, pairwise
/// distinct, resolves the name of member `k` to index `k`.
pub proof fn lemma_distinct_names_resolve(
    members: Seq<FontMember>,
    names: Seq<Seq<char>>,
    k: int,
)
    requires
        members.len() == names.len(),
        0 <= k < members.len(),
        forall|i: int|
            0 <= i < members.len() ==> (#[trigger] members[i].postscript_names@).map_values(
                |s: String| s@,
            ) == seq![names[i]],
        forall|i: int, j: int| 0 <= i < j < names.len() ==> names[i] != names[j],
    ensures
        is_first_match(members, names[k], k),
{
    assert forall|i: int| 0 <= i < members.len() implies members[i].postscript_names@.len() == 1
        && members[i].postscript_names@[0]@ == names[i] by {
        assert(members[i].postscript_names@.map_values(|s: String| s@) == seq![names[i]]);
        assert(members[i].postscript_names@.map_values(|s: String| s@).len() == 1);
        assert(members[i].postscript_names@.map_values(|s: String| s@)[0] == names[i]);
    }
    assert(member_matches(members[k], names[k]));
    assert forall|i: int| 0 <= i < k implies !member_matches(#[trigger] members[i], names[k]) by {
        if member_matches(members[i], names[k]) {
            let j = choose|j: int|
                0 <= j < members[i].postscript_names@.len() && (
                #[trigger] members[i].postscript_names@[j])@ == names[k];
            assert(j == 0);
            assert(names[i] == names[k]);
            if i < k {
                assert(names[i] != names[k]);
            }
        }
    }
}

/// Resolution is repeatable: the first matching index of a container and
/// target is unique, so two resolutions of the same pair yield the same
/// index. `resolve_index` takes the container by shared reference and
/// cannot change it, and its result is pinned to `is_first_match`.
pub proof fn lemma_resolution_deterministic(
    members: Seq<FontMember>,
    target: Seq<char>,
    i1: int,
    i2: int,
)
    requires
        is_first_match(members, target, i1),
        is_first_match(members, target, i2),
    ensures
        i1 == i2,
{
    if i1 < i2 {
        assert(!member_matches(members[i1], target));
    }
    if i2 < i1 {
        assert(!member_matches(members[i2], target));
    }
}

/// The scan fails first at member `i`: every member before `i` loads and
/// does not match the target, and member `i` does not load.
pub open spec fn first_failure_before_match(ms: Seq<MemberNames>, target: Seq<char>, i: int) -> bool {
    &&& 0 <= i < ms.len()
    &&& !member_loads(ms[i])
    &&& forall|k: int|
        0 <= k < i ==> member_loads(#[trigger] ms[k]) && !names_match(ms[k], target)
}

/// Opens a font file's bytes and resolves the target PostScript name to a
/// member index: the per-entry step of an enumeration pass.
///
/// A single font resolves to 0. In a collection, members are read and
/// tested one at a time in ascending index order, and the scan stops at
/// the first member whose decoded PostScript names contain the target;
/// members past the first match are never read, so a damaged later member
/// does not fail an entry that resolves before it. The error is the first
/// scanned member's reading failure, or `NameNotFound` carrying the
/// requested name when every member loads and none matches.
pub fn resolve_in_file(bytes: &[u8], target: &str) -> (r: Result<usize, FontError>)
    ensures
        match r {
            Ok(i) => match file_names(bytes@) {
                Some(FileNames::Single) => i == 0,
                Some(FileNames::Collection(ms)) => {
                    &&& ms.len() >= 1
                    &&& i < ms.len()
                    &&& forall|k: int| 0 <= k <= i ==> member_loads(#[trigger] ms[k])
                    &&& names_match(ms[i as int], target@)
                    &&& forall|k: int| 0 <= k < i ==> !names_match(#[trigger] ms[k], target@)
                },
                None => false,
            },
            Err(e) => match file_names(bytes@) {
                None => e is MalformedContainer,
                Some(FileNames::Single) => false,
                Some(FileNames::Collection(ms)) => (ms.len() == 0 && e is MalformedContainer) || (
                exists|i: int|
                    #[trigger] first_failure_before_match(ms, target@, i) && member_error(
                        ms[i],
                        e,
                    )) || ({
                    &&& forall|k: int| 0 <= k < ms.len() ==> member_loads(#[trigger] ms[k])
                    &&& forall|k: int| 0 <= k < ms.len() ==> !names_match(#[trigger] ms[k], target@)
                    &&& e matches FontError::NameNotFound { name } && name@ == target@
                }),
            },
        },
{
    let raw = match open_file_ref(bytes) {
        Ok(raw) => raw,
        Err(_) => {
            return Err(FontError::MalformedContainer);
        },
    };
    match raw {
        RawFile::Single(_) => Ok(0),
        RawFile::Collection(c) => {
            let ghost ms = collection_names(c);
            let n = collection_len(&c);
            if n == 0 {
                return Err(FontError::MalformedContainer);
            }
            let wanted: String = target.to_owned();
            let mut i: u32 = 0;
            while i < n
                invariant
                    n as nat == ms.len(),
                    i <= n,
                    ms == collection_names(c),
                    file_names(bytes@) == Some(FileNames::Collection(ms)),
                    wanted@ == target@,
                    forall|k: int|
                        0 <= k < i ==> member_loads(#[trigger] ms[k]) && !names_match(
                            ms[k],
                            target@,
                        ),
                decreases n - i,
            {
                let member = match load_member(&c, i) {
                    Ok(m) => m,
                    Err(e) => {
                        assert(first_failure_before_match(ms, target@, i as int));
                        return Err(e);
                    },
                };
                proof {
                    lemma_models_match(member, ms[i as int], target@);
                }
                if member_has_name(&member, &wanted) {
                    return Ok(i as usize);
                }
                i += 1;
            }
            Err(FontError::NameNotFound { name: wanted })
        },
    }
}

} // verus!
