use vstd::prelude::*;

use crate::text::{compare_names, lemma_name_lt_irreflexive, lemma_name_lt_transitive, name_lt};

verus! {

/// The value of an attribute: text, or a flag that is present or absent.
#[derive(Debug, Clone, PartialEq, Eq)]
pub enum PrimitiveAttributeValue {
    String(String),
    Bool(bool),
}

/// Abstract value of an attribute.
pub enum ValueView {
    Text(Seq<char>),
    Flag(bool),
}

impl View for PrimitiveAttributeValue {
    type V = ValueView;

    open spec fn view(&self) -> ValueView {
        match self {
            PrimitiveAttributeValue::String(s) => ValueView::Text(s@),
            PrimitiveAttributeValue::Bool(b) => ValueView::Flag(*b),
        }
    }
}

/// A named attribute value.
#[derive(Debug, Clone, PartialEq, Eq)]
pub struct PrimitiveAttribute {
    name: String,
    value: PrimitiveAttributeValue,
}

/// Abstract attribute: its name and value.
pub struct AttributeView {
    pub name: Seq<char>,
    pub value: ValueView,
}

impl View for PrimitiveAttribute {
    type V = AttributeView;

    closed spec fn view(&self) -> AttributeView {
        AttributeView { name: self.name@, value: self.value@ }
    }
}

/// Failure to write an attribute onto a live element.
#[derive(Debug, Clone, PartialEq, Eq, Structural)]
pub enum PrimitiveError {
    AttributeUnavailable,
}

/// What a reconciliation decided: names to remove, attributes to (re)apply.
#[derive(Debug)]
pub struct AttributeDelta {
    pub remove: Vec<String>,
    pub set: Vec<PrimitiveAttribute>,
}

/// The abstract attributes of a list.
pub open spec fn views(s: Seq<PrimitiveAttribute>) -> Seq<AttributeView> {
    s.map_values(|a: PrimitiveAttribute| a@)
}

/// The abstract names of a list.
pub open spec fn name_views(s: Seq<String>) -> Seq<Seq<char>> {
    s.map_values(|n: String| n@)
}

/// Attributes in strictly increasing order of name (hence no name twice).
pub open spec fn sorted_by_name(s: Seq<AttributeView>) -> bool {
    forall|i: int, j: int| 0 <= i < j < s.len() ==> name_lt(#[trigger] s[i].name, #[trigger] s[j].name)
}

/// Names in strictly increasing order.
pub open spec fn names_sorted(s: Seq<Seq<char>>) -> bool {
    forall|i: int, j: int| 0 <= i < j < s.len() ==> name_lt(#[trigger] s[i], #[trigger] s[j])
}

/// Each name of the list mapped to the value of its last occurrence.
pub open spec fn last_values(s: Seq<AttributeView>) -> Map<Seq<char>, ValueView>
    decreases s.len(),
{
    if s.len() == 0 {
        Map::empty()
    } else {
        last_values(s.drop_last()).insert(s.last().name, s.last().value)
    }
}

/// The text that applying an attribute writes, or `None` when it removes it:
/// text is written as it is, a set flag as the empty text, a cleared flag removes.
pub open spec fn written_text(v: ValueView) -> Option<Seq<char>> {
    match v {
        ValueView::Text(s) => Some(s),
        ValueView::Flag(true) => Some(Seq::empty()),
        ValueView::Flag(false) => None,
    }
}

proof fn lemma_sorted_names_differ(s: Seq<AttributeView>, i: int, j: int)
    requires
        sorted_by_name(s),
        0 <= i < s.len(),
        0 <= j < s.len(),
        i != j,
    ensures
        s[i].name != s[j].name,
{
    if i < j {
        assert(name_lt(s[i].name, s[j].name));
    } else {
        assert(name_lt(s[j].name, s[i].name));
    }
    lemma_name_lt_irreflexive(s[i].name);
}

/// In a list sorted by name, every entry is what `last_values` holds for its
/// name, and every name there comes from an entry.
proof fn lemma_last_values_sorted(s: Seq<AttributeView>)
    requires
        sorted_by_name(s),
    ensures
        forall|i: int|
            0 <= i < s.len() ==> #[trigger] last_values(s).contains_key(s[i].name) && last_values(s)[s[i].name]
                == s[i].value,
        forall|k: Seq<char>|
            #[trigger] last_values(s).contains_key(k) ==> exists|i: int| 0 <= i < s.len() && s[i].name == k,
    decreases s.len(),
{
    if s.len() > 0 {
        let t = s.drop_last();
        assert(sorted_by_name(t)) by {
            assert forall|i: int, j: int| 0 <= i < j < t.len() implies name_lt(#[trigger] t[i].name, #[trigger] t[j].name) by {
                assert(t[i] == s[i] && t[j] == s[j]);
            }
        }
        lemma_last_values_sorted(t);
        assert forall|i: int|
            0 <= i < s.len() implies #[trigger] last_values(s).contains_key(s[i].name) && last_values(s)[s[i].name]
                == s[i].value by {
            if i < s.len() - 1 {
                lemma_sorted_names_differ(s, i, s.len() - 1);
                assert(t[i] == s[i]);
            }
        }
        assert forall|k: Seq<char>|
            #[trigger] last_values(s).contains_key(k) implies exists|i: int| 0 <= i < s.len() && s[i].name == k by {
            if k != s.last().name {
                assert(last_values(t).contains_key(k));
                let i = choose|i: int| 0 <= i < t.len() && t[i].name == k;
                assert(s[i] == t[i]);
            } else {
                assert(s[s.len() - 1].name == k);
            }
        }
    }
}

/// A list sorted by name whose entries are exactly those of `m` has `m` as
/// its `last_values`.
proof fn lemma_last_values_is(s: Seq<AttributeView>, m: Map<Seq<char>, ValueView>)
    requires
        sorted_by_name(s),
        forall|i: int| 0 <= i < s.len() ==> #[trigger] m.contains_key(s[i].name) && m[s[i].name] == s[i].value,
        forall|k: Seq<char>| #[trigger] m.contains_key(k) ==> exists|i: int| 0 <= i < s.len() && s[i].name == k,
    ensures
        last_values(s) == m,
{
    lemma_last_values_sorted(s);
    assert forall|k: Seq<char>| #[trigger] last_values(s).contains_key(k) <==> m.contains_key(k) by {
        if m.contains_key(k) {
            let i = choose|i: int| 0 <= i < s.len() && s[i].name == k;
            assert(last_values(s).contains_key(s[i].name));
        }
        if last_values(s).contains_key(k) {
            let i = choose|i: int| 0 <= i < s.len() && s[i].name == k;
            assert(m.contains_key(s[i].name));
        }
    }
    assert forall|k: Seq<char>| #[trigger] last_values(s).contains_key(k) implies last_values(s)[k] == m[k] by {
        let i = choose|i: int| 0 <= i < s.len() && s[i].name == k;
        assert(m.contains_key(s[i].name));
    }
    assert(last_values(s) =~= m);
}

impl PrimitiveAttribute {
    /// A text attribute.
    pub fn string(name: &str, value: &str) -> (r: Self)
        ensures
            r@ == (AttributeView { name: name@, value: ValueView::Text(value@) }),
    {
        PrimitiveAttribute { name: name.to_owned(), value: PrimitiveAttributeValue::String(value.to_owned()) }
    }

    /// A flag attribute.
    pub fn bool(name: &str, value: bool) -> (r: Self)
        ensures
            r@ == (AttributeView { name: name@, value: ValueView::Flag(value) }),
    {
        PrimitiveAttribute { name: name.to_owned(), value: PrimitiveAttributeValue::Bool(value) }
    }

    pub fn name(&self) -> (r: &str)
        ensures
            r@ == self@.name,
    {
        self.name.as_str()
    }

    pub fn value(&self) -> (r: &PrimitiveAttributeValue)
        ensures
            r@ == self@.value,
    {
        &self.value
    }

    fn duplicate(&self) -> (r: Self)
        ensures
            r@ == self@,
    {
        let value = match &self.value {
            PrimitiveAttributeValue::String(s) => PrimitiveAttributeValue::String(s.clone()),
            PrimitiveAttributeValue::Bool(b) => PrimitiveAttributeValue::Bool(*b),
        };
        PrimitiveAttribute { name: self.name.clone(), value }
    }
}

/// The text to write when applying `attr`, or `None` when applying it means
/// removing the attribute.
pub fn attribute_text(attr: &PrimitiveAttribute) -> (r: Option<String>)
    ensures
        r matches Some(t) ==> written_text(attr@.value) == Some(t@),
        r is None <==> written_text(attr@.value) is None,
{
    match attr.value() {
        PrimitiveAttributeValue::String(s) => Some(s.clone()),
        PrimitiveAttributeValue::Bool(b) => if *b {
            Some(String::new())
        } else {
            None
        },
    }
}

/// Puts `attr` into a list sorted by name, replacing the entry of the same
/// name if there is one.
fn insert_by_name(out: &mut Vec<PrimitiveAttribute>, attr: PrimitiveAttribute)
    requires
        sorted_by_name(views(old(out)@)),
    ensures
        sorted_by_name(views(final(out)@)),
        last_values(views(final(out)@)) == last_values(views(old(out)@)).insert(attr@.name, attr@.value),
{
    let ghost s = views(out@);
    let ghost n = attr@.name;
    let ghost m = last_values(s).insert(n, attr@.value);
    let mut i: usize = 0;
    while i < out.len()
        invariant
            s == views(out@),
            s == views(old(out)@),
            sorted_by_name(s),
            n == attr@.name,
            m == last_values(s).insert(n, attr@.value),
            i <= s.len(),
            forall|j: int| 0 <= j < i ==> name_lt(#[trigger] s[j].name, n),
        decreases s.len() - i,
    {
        let c = compare_names(out[i].name.as_str(), attr.name.as_str());
        if c == 0 {
            out.set(i, attr);
            proof {
                lemma_last_values_sorted(s);
                assert(s[i as int].name == n);
                let s2 = views(out@);
                assert(s2 =~= s.update(i as int, attr@));
                assert(sorted_by_name(s2)) by {
                    assert forall|a: int, b: int| 0 <= a < b < s2.len() implies name_lt(#[trigger] s2[a].name, #[trigger] s2[b].name) by {
                        assert(name_lt(s[a].name, s[b].name));
                    }
                }
                assert forall|j: int| 0 <= j < s2.len() implies #[trigger] m.contains_key(s2[j].name) && m[s2[j].name] == s2[j].value by {
                    if j != i {
                        lemma_sorted_names_differ(s, j, i as int);
                        assert(s2[j] == s[j]);
                        assert(last_values(s).contains_key(s[j].name));
                    }
                }
                assert forall|k: Seq<char>| #[trigger] m.contains_key(k) implies exists|j: int| 0 <= j < s2.len() && s2[j].name == k by {
                    if k == n {
                        assert(s2[i as int].name == k);
                    } else {
                        let j = choose|j: int| 0 <= j < s.len() && s[j].name == k;
                        assert(s2[j].name == k);
                    }
                }
                lemma_last_values_is(s2, m);
            }
            return;
        } else if c == 1 {
            out.insert(i, attr);
            proof {
                lemma_last_values_sorted(s);
                let s2 = views(out@);
                assert(s2 =~= s.insert(i as int, attr@));
                assert forall|j: int| i <= j < s.len() implies name_lt(n, #[trigger] s[j].name) by {
                    if j > i {
                        assert(name_lt(s[i as int].name, s[j].name));
                        lemma_name_lt_transitive(n, s[i as int].name, s[j].name);
                    }
                }
                assert(sorted_by_name(s2)) by {
                    assert forall|a: int, b: int| 0 <= a < b < s2.len() implies name_lt(#[trigger] s2[a].name, #[trigger] s2[b].name) by {
                        if b < i {
                            assert(name_lt(s[a].name, s[b].name));
                        } else if b == i {
                            assert(name_lt(s[a].name, n));
                        } else if a == i {
                            assert(name_lt(n, s[b - 1].name));
                        } else if a < i {
                            assert(name_lt(s[a].name, s[b - 1].name));
                        } else {
                            assert(name_lt(s[a - 1].name, s[b - 1].name));
                        }
                    }
                }
                assert forall|j: int| 0 <= j < s.len() implies s[j].name != n by {
                    lemma_name_lt_irreflexive(n);
                }
                assert forall|j: int| 0 <= j < s2.len() implies #[trigger] m.contains_key(s2[j].name) && m[s2[j].name] == s2[j].value by {
                    if j < i {
                        assert(s2[j] == s[j]);
                        assert(last_values(s).contains_key(s[j].name));
                    } else if j > i {
                        assert(s2[j] == s[j - 1]);
                        assert(last_values(s).contains_key(s[j - 1].name));
                    }
                }
                assert forall|k: Seq<char>| #[trigger] m.contains_key(k) implies exists|j: int| 0 <= j < s2.len() && s2[j].name == k by {
                    if k == n {
                        assert(s2[i as int].name == k);
                    } else {
                        let j = choose|j: int| 0 <= j < s.len() && s[j].name == k;
                        if j < i {
                            assert(s2[j].name == k);
                        } else {
                            assert(s2[j + 1].name == k);
                        }
                    }
                }
                lemma_last_values_is(s2, m);
            }
            return;
        }
        i = i + 1;
    }
    out.push(attr);
    proof {
        let s2 = views(out@);
        assert(s2 =~= s.push(attr@));
        assert(s2.drop_last() =~= s);
        assert(sorted_by_name(s2)) by {
            assert forall|a: int, b: int| 0 <= a < b < s2.len() implies name_lt(#[trigger] s2[a].name, #[trigger] s2[b].name) by {
                if b < s.len() {
                    assert(name_lt(s[a].name, s[b].name));
                } else {
                    assert(name_lt(s[a].name, n));
                }
            }
        }
    }
}

/// Folds a list into one entry per name, the last occurrence winning, in
/// increasing order of name.
pub fn normalize_attributes(attrs: &[PrimitiveAttribute]) -> (r: Vec<PrimitiveAttribute>)
    ensures
        sorted_by_name(views(r@)),
        last_values(views(r@)) == last_values(views(attrs@)),
{
    let mut out: Vec<PrimitiveAttribute> = Vec::new();
    let mut i: usize = 0;
    proof {
        assert(views(attrs@.subrange(0, 0)) =~= Seq::<AttributeView>::empty());
        assert(views(out@) =~= Seq::<AttributeView>::empty());
    }
    while i < attrs.len()
        invariant
            i <= attrs@.len(),
            sorted_by_name(views(out@)),
            last_values(views(out@)) == last_values(views(attrs@.subrange(0, i as int))),
        decreases attrs@.len() - i,
    {
        let a = attrs[i].duplicate();
        insert_by_name(&mut out, a);
        proof {
            let p = views(attrs@.subrange(0, i + 1));
            assert(p.drop_last() =~= views(attrs@.subrange(0, i as int)));
            assert(p.last() == attrs@[i as int]@);
        }
        i = i + 1;
    }
    proof {
        assert(attrs@.subrange(0, attrs@.len() as int) =~= attrs@);
    }
    out
}

/// Whether some entry of `list` is named `name`.
fn has_name(list: &Vec<PrimitiveAttribute>, name: &String) -> (r: bool)
    ensures
        r == exists|j: int| 0 <= j < list@.len() && (#[trigger] list@[j])@.name == name@,
{
    let mut i: usize = 0;
    while i < list.len()
        invariant
            i <= list@.len(),
            forall|j: int| 0 <= j < i ==> (#[trigger] list@[j])@.name != name@,
        decreases list@.len() - i,
    {
        if list[i].name == *name {
            return true;
        }
        i = i + 1;
    }
    false
}

/// Names of `previous` that `next` lacks, in increasing order.
fn missing_names(previous: &Vec<PrimitiveAttribute>, next: &Vec<PrimitiveAttribute>) -> (r: Vec<String>)
    requires
        sorted_by_name(views(previous@)),
    ensures
        names_sorted(name_views(r@)),
        forall|k: Seq<char>|
            name_views(r@).contains(k) <==> ((exists|i: int| 0 <= i < previous@.len() && (#[trigger] previous@[i])@.name == k)
                && !(exists|j: int| 0 <= j < next@.len() && (#[trigger] next@[j])@.name == k)),
{
    let ghost p = views(previous@);
    let mut out: Vec<String> = Vec::new();
    let mut i: usize = 0;
    while i < previous.len()
        invariant
            p == views(previous@),
            sorted_by_name(p),
            i <= previous@.len(),
            names_sorted(name_views(out@)),
            forall|q: int| 0 <= q < out@.len() ==> exists|j: int| 0 <= j < i && #[trigger] name_views(out@)[q] == p[j].name,
            forall|k: Seq<char>|
                name_views(out@).contains(k) <==> ((exists|j: int| 0 <= j < i && (#[trigger] previous@[j])@.name == k)
                    && !(exists|j: int| 0 <= j < next@.len() && (#[trigger] next@[j])@.name == k)),
        decreases previous@.len() - i,
    {
        if !has_name(next, &previous[i].name) {
            let ghost before = name_views(out@);
            out.push(previous[i].name.clone());
            proof {
                let after = name_views(out@);
                assert(after =~= before.push(p[i as int].name));
                assert(names_sorted(after)) by {
                    assert forall|a: int, b: int| 0 <= a < b < after.len() implies name_lt(#[trigger] after[a], #[trigger] after[b]) by {
                        if b < before.len() {
                            assert(name_lt(before[a], before[b]));
                        } else {
                            let j = choose|j: int| 0 <= j < i && #[trigger] before[a] == p[j].name;
                            assert(name_lt(p[j].name, p[i as int].name));
                        }
                    }
                }
                assert forall|q: int| 0 <= q < after.len() implies exists|j: int| 0 <= j < i + 1 && #[trigger] after[q] == p[j].name by {
                    if q < before.len() {
                        let j = choose|j: int| 0 <= j < i && #[trigger] before[q] == p[j].name;
                        assert(after[q] == p[j].name);
                    } else {
                        assert(after[q] == p[i as int].name);
                    }
                }
                assert forall|k: Seq<char>|
                    after.contains(k) <==> ((exists|j: int| 0 <= j < i + 1 && (#[trigger] previous@[j])@.name == k)
                        && !(exists|j: int| 0 <= j < next@.len() && (#[trigger] next@[j])@.name == k)) by {
                    if after.contains(k) {
                        let q = choose|q: int| 0 <= q < after.len() && after[q] == k;
                        if q == before.len() {
                            assert(previous@[i as int]@.name == k);
                        } else {
                            assert(before.contains(before[q]));
                        }
                    }
                    if exists|j: int| 0 <= j < i + 1 && (#[trigger] previous@[j])@.name == k {
                        let j = choose|j: int| 0 <= j < i + 1 && (#[trigger] previous@[j])@.name == k;
                        if j == i {
                            assert(after[before.len() as int] == k);
                        }
                    }
                    if before.contains(k) {
                        let q = choose|q: int| 0 <= q < before.len() && before[q] == k;
                        assert(after[q] == k);
                    }
                }
            }
        } else {
            proof {
                let cur = name_views(out@);
                assert forall|k: Seq<char>|
                    cur.contains(k) <==> ((exists|j: int| 0 <= j < i + 1 && (#[trigger] previous@[j])@.name == k)
                        && !(exists|j: int| 0 <= j < next@.len() && (#[trigger] next@[j])@.name == k)) by {
                    if exists|j: int| 0 <= j < i + 1 && (#[trigger] previous@[j])@.name == k {
                        let j = choose|j: int| 0 <= j < i + 1 && (#[trigger] previous@[j])@.name == k;
                        if j == i && !(exists|j: int| 0 <= j < next@.len() && (#[trigger] next@[j])@.name == k) {
                            assert(previous@[i as int]@.name == k);
                        }
                    }
                }
            }
        }
        i = i + 1;
    }
    out
}

/// Reconciles two attribute lists: `set` is `next` normalized (one entry per
/// name, the last occurrence winning, in increasing order of name) and
/// `remove` holds, in increasing order, the names of `previous` that `next`
/// lacks.
pub fn attribute_delta(previous: &[PrimitiveAttribute], next: &[PrimitiveAttribute]) -> (r: AttributeDelta)
    ensures
        sorted_by_name(views(r.set@)),
        last_values(views(r.set@)) == last_values(views(next@)),
        names_sorted(name_views(r.remove@)),
        forall|k: Seq<char>|
            name_views(r.remove@).contains(k) <==> (last_values(views(previous@)).contains_key(k)
                && !last_values(views(next@)).contains_key(k)),
{
    let previous = normalize_attributes(previous);
    let next = normalize_attributes(next);
    let remove = missing_names(&previous, &next);
    proof {
        let p = views(previous@);
        let n = views(next@);
        lemma_last_values_sorted(p);
        lemma_last_values_sorted(n);
        assert forall|k: Seq<char>|
            (exists|i: int| 0 <= i < previous@.len() && (#[trigger] previous@[i])@.name == k) <==> last_values(p).contains_key(k) by {
            if last_values(p).contains_key(k) {
                let i = choose|i: int| 0 <= i < p.len() && p[i].name == k;
                assert(previous@[i]@.name == k);
            }
            if exists|i: int| 0 <= i < previous@.len() && (#[trigger] previous@[i])@.name == k {
                let i = choose|i: int| 0 <= i < previous@.len() && (#[trigger] previous@[i])@.name == k;
                assert(p[i].name == k);
            }
        }
        assert forall|k: Seq<char>|
            (exists|i: int| 0 <= i < next@.len() && (#[trigger] next@[i])@.name == k) <==> last_values(n).contains_key(k) by {
            if last_values(n).contains_key(k) {
                let i = choose|i: int| 0 <= i < n.len() && n[i].name == k;
                assert(next@[i]@.name == k);
            }
            if exists|i: int| 0 <= i < next@.len() && (#[trigger] next@[i])@.name == k {
                let i = choose|i: int| 0 <= i < next@.len() && (#[trigger] next@[i])@.name == k;
                assert(n[i].name == k);
            }
        }
    }
    AttributeDelta { remove, set: next }
}

} // verus!
