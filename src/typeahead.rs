use vstd::prelude::*;
use vstd::string::*;

verus! {

/// ASCII lower-casing of one byte; other bytes are kept.
pub open spec fn ascii_lower(b: u8) -> u8 {
    if 65 <= b <= 90 {
        (b + 32) as u8
    } else {
        b
    }
}

/// `value` starts with `query`, byte by byte after ASCII lower-casing.
pub open spec fn starts_with_folded(value: Seq<u8>, query: Seq<u8>) -> bool {
    &&& query.len() <= value.len()
    &&& forall|k: int| 0 <= k < query.len() ==> ascii_lower(#[trigger] value[k]) == ascii_lower(query[k])
}

/// A label that `label` gives for `item` starts with `query`.
pub open spec fn label_matches<T, F: Fn(&T) -> &str>(label: F, item: &T, query: Seq<u8>) -> bool {
    exists|l: &str| #[trigger] call_ensures(label, (item,), l) && starts_with_folded(l.spec_bytes(), query)
}

/// A label that `label` gives for `item` does not start with `query`.
pub open spec fn label_misses<T, F: Fn(&T) -> &str>(label: F, item: &T, query: Seq<u8>) -> bool {
    exists|l: &str| #[trigger] call_ensures(label, (item,), l) && !starts_with_folded(l.spec_bytes(), query)
}

fn ascii_lower_byte(b: u8) -> (r: u8)
    ensures
        r == ascii_lower(b),
{
    if 65 <= b && b <= 90 {
        b + 32
    } else {
        b
    }
}

/// Whether `value` starts with `query`, ignoring ASCII case.
pub fn starts_with_ignore_ascii_case(value: &str, query: &str) -> (r: bool)
    ensures
        r == starts_with_folded(value.spec_bytes(), query.spec_bytes()),
{
    let v = value.as_bytes();
    let q = query.as_bytes();
    let mut i: usize = 0;
    while i < q.len()
        invariant
            v@ == value.spec_bytes(),
            q@ == query.spec_bytes(),
            i <= q@.len(),
            i <= v@.len(),
            forall|k: int| 0 <= k < i ==> ascii_lower(#[trigger] v@[k]) == ascii_lower(q@[k]),
        decreases q@.len() - i,
    {
        if i >= v.len() {
            return false;
        }
        if ascii_lower_byte(v[i]) != ascii_lower_byte(q[i]) {
            return false;
        }
        i = i + 1;
    }
    true
}

/// Index of the first item whose label starts with `query`, ignoring ASCII
/// case; `None` for an empty query or when no label matches.
pub fn typeahead_match<T, F: Fn(&T) -> &str>(items: &[T], query: &str, label: F) -> (r: Option<usize>)
    requires
        forall|i: int| 0 <= i < items@.len() ==> call_requires(label, (&items@[i],)),
    ensures
        query@.len() == 0 ==> r is None,
        r matches Some(i) ==> {
            &&& i < items@.len()
            &&& label_matches(label, &items@[i as int], query.spec_bytes())
            &&& forall|j: int| 0 <= j < i ==> label_misses(label, &items@[j], query.spec_bytes())
        },
        (r is None && query@.len() > 0) ==> forall|j: int|
            0 <= j < items@.len() ==> label_misses(label, &items@[j], query.spec_bytes()),
{
    if query.is_empty() {
        return None;
    }
    let mut i: usize = 0;
    while i < items.len()
        invariant
            i <= items@.len(),
            query@.len() > 0,
            forall|j: int| 0 <= j < items@.len() ==> call_requires(label, (&items@[j],)),
            forall|j: int| 0 <= j < i ==> label_misses(label, &items@[j], query.spec_bytes()),
        decreases items@.len() - i,
    {
        let value = label(&items[i]);
        if starts_with_ignore_ascii_case(value, query) {
            return Some(i);
        }
        i = i + 1;
    }
    None
}

} // verus!
