//! The fixed tables of collection identifiers.
use vstd::prelude::*;

verus! {

/// Identifiers of sequence-like containers.
pub open spec fn linear_names() -> Seq<Seq<char>> {
    seq!["Vec"@, "HashSet"@, "BTreeSet"@, "IndexSet"@]
}

/// Identifiers of map-like containers.
pub open spec fn keyval_names() -> Seq<Seq<char>> {
    seq!["HashMap"@, "BTreeMap"@, "IndexMap"@]
}

/// Whether two strings hold the same characters.
pub fn text_eq(a: &str, b: &str) -> (r: bool)
    ensures
        r == (a@ == b@),
{
    let n = a.unicode_len();
    if n != b.unicode_len() {
        return false;
    }
    let mut i: usize = 0;
    while i < n
        invariant
            n == a@.len(),
            n == b@.len(),
            i <= n,
            a@.subrange(0, i as int) == b@.subrange(0, i as int),
        decreases n - i,
    {
        if a.get_char(i) != b.get_char(i) {
            return false;
        }
        assert(a@.subrange(0, i + 1) == a@.subrange(0, i as int).push(a@[i as int]));
        assert(b@.subrange(0, i + 1) == b@.subrange(0, i as int).push(b@[i as int]));
        i = i + 1;
    }
    assert(a@ == a@.subrange(0, n as int));
    assert(b@ == b@.subrange(0, n as int));
    true
}

/// Whether `ident` names a sequence-like container.
pub fn is_linear_collection(ident: &str) -> (r: bool)
    ensures
        r == linear_names().contains(ident@),
{
    let names = ["Vec", "HashSet", "BTreeSet", "IndexSet"];
    proof {
        assert(linear_names() == seq![names[0]@, names[1]@, names[2]@, names[3]@]);
    }
    let mut i: usize = 0;
    while i < 4
        invariant
            i <= 4,
            forall|j: int| 0 <= j < i ==> linear_names()[j] != ident@,
            linear_names() == seq![names[0]@, names[1]@, names[2]@, names[3]@],
        decreases 4 - i,
    {
        if text_eq(names[i], ident) {
            return true;
        }
        i = i + 1;
    }
    false
}

/// Whether `ident` names a map-like container.
pub fn is_keyval_collection(ident: &str) -> (r: bool)
    ensures
        r == keyval_names().contains(ident@),
{
    let names = ["HashMap", "BTreeMap", "IndexMap"];
    proof {
        assert(keyval_names() == seq![names[0]@, names[1]@, names[2]@]);
    }
    let mut i: usize = 0;
    while i < 3
        invariant
            i <= 3,
            forall|j: int| 0 <= j < i ==> keyval_names()[j] != ident@,
            keyval_names() == seq![names[0]@, names[1]@, names[2]@],
        decreases 3 - i,
    {
        if text_eq(names[i], ident) {
            return true;
        }
        i = i + 1;
    }
    false
}

} // verus!
