use vstd::prelude::*;
use vstd::string::*;
use vstd::utf8::*;

verus! {

/// Character-by-character equality of two string slices.
pub fn str_eq(a: &str, b: &str) -> (r: bool)
    ensures
        r == (a@ == b@),
{
    let n = a.unicode_len();
    if n != b.unicode_len() {
        return false;
    }
    let mut i: usize = 0;
    while i < n
        invariant
            n == a@.len(),
            n == b@.len(),
            i <= n,
            forall|k: int| 0 <= k < i ==> a@[k] == b@[k],
        decreases n - i,
    {
        if a.get_char(i) != b.get_char(i) {
            return false;
        }
        i = i + 1;
    }
    assert(a@ =~= b@);
    true
}

/// Lexicographic order on byte strings from position `i` on: the first
/// differing byte decides, and a proper prefix comes first.
pub open spec fn bytes_lt_from(a: Seq<u8>, b: Seq<u8>, i: int) -> bool
    decreases a.len() - i,
{
    if i < 0 || i >= b.len() {
        false
    } else if i >= a.len() {
        true
    } else if a[i] != b[i] {
        a[i] < b[i]
    } else {
        bytes_lt_from(a, b, i + 1)
    }
}

/// Lexicographic order on byte strings.
pub open spec fn bytes_lt(a: Seq<u8>, b: Seq<u8>) -> bool {
    bytes_lt_from(a, b, 0)
}

/// Order of names: their UTF-8 encodings compared byte by byte.
pub open spec fn name_lt(a: Seq<char>, b: Seq<char>) -> bool {
    bytes_lt(encode_utf8(a), encode_utf8(b))
}

proof fn lemma_bytes_lt_from_irreflexive(a: Seq<u8>, i: int)
    requires
        0 <= i,
    ensures
        !bytes_lt_from(a, a, i),
    decreases a.len() - i,
{
    if i < a.len() {
        lemma_bytes_lt_from_irreflexive(a, i + 1);
    }
}

proof fn lemma_bytes_lt_from_transitive(a: Seq<u8>, b: Seq<u8>, c: Seq<u8>, i: int)
    requires
        0 <= i,
        bytes_lt_from(a, b, i),
        bytes_lt_from(b, c, i),
    ensures
        bytes_lt_from(a, c, i),
    decreases a.len() - i,
{
    if i < a.len() && a[i] == b[i] && b[i] == c[i] {
        lemma_bytes_lt_from_transitive(a, b, c, i + 1);
    }
}

/// No name comes before itself.
pub proof fn lemma_name_lt_irreflexive(a: Seq<char>)
    ensures
        !name_lt(a, a),
{
    lemma_bytes_lt_from_irreflexive(encode_utf8(a), 0);
}

/// The order of names is transitive.
pub proof fn lemma_name_lt_transitive(a: Seq<char>, b: Seq<char>, c: Seq<char>)
    requires
        name_lt(a, b),
        name_lt(b, c),
    ensures
        name_lt(a, c),
{
    lemma_bytes_lt_from_transitive(encode_utf8(a), encode_utf8(b), encode_utf8(c), 0);
}

/// Three-way comparison of two names: `-1`, `0` or `1` as `a` comes before,
/// equals or comes after `b`.
pub fn compare_names(a: &str, b: &str) -> (r: i8)
    ensures
        r == -1 <==> name_lt(a@, b@),
        r == 0 <==> a@ == b@,
        r == 1 <==> name_lt(b@, a@),
        r == -1 || r == 0 || r == 1,
{
    let x = a.as_bytes();
    let y = b.as_bytes();
    let ghost ea = encode_utf8(a@);
    let ghost eb = encode_utf8(b@);
    let mut i: usize = 0;
    while i < x.len() && i < y.len()
        invariant
            ea == encode_utf8(a@),
            eb == encode_utf8(b@),
            x@ == ea,
            y@ == eb,
            i <= x@.len(),
            i <= y@.len(),
            forall|k: int| 0 <= k < i ==> x@[k] == y@[k],
            bytes_lt(ea, eb) == bytes_lt_from(ea, eb, i as int),
            bytes_lt(eb, ea) == bytes_lt_from(eb, ea, i as int),
        decreases x@.len() - i,
    {
        if x[i] != y[i] {
            assert(ea[i as int] != eb[i as int]);
            if x[i] < y[i] {
                return -1;
            } else {
                return 1;
            }
        }
        i = i + 1;
    }
    proof {
        encode_utf8_decode_utf8(a@);
        encode_utf8_decode_utf8(b@);
        lemma_name_lt_irreflexive(a@);
        lemma_name_lt_irreflexive(b@);
    }
    if x.len() < y.len() {
        -1
    } else if y.len() < x.len() {
        1
    } else {
        assert(ea =~= eb);
        0
    }
}

} // verus!
