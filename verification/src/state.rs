//! Terraform values, resources and the set of resources of a configuration.

use vstd::prelude::*;

use crate::decimal::Decimal;
use crate::resource::{address_text, ResourceAddress};

verus! {

broadcast use {vstd::std_specs::vec::axiom_vec_decreases_to_view, vstd::std_specs::vec::axiom_vec_index_decreases};

/// A number from a Terraform file.
///
/// The floating-point value itself stays with the program that reads the files;
/// the library holds its bit pattern and what the estimator reads of it, worked
/// out where the float is: its conversion to a decimal, its printed text, and
/// the decimal that keeps every bit of the value divided by 1024.
#[derive(Debug)]
pub struct Number {
    /// The IEEE 754 binary64 encoding (`f64::to_bits`).
    pub bits: u64,
    /// `Decimal::try_from(value)`, or the message of its error.
    pub decimal: Result<Decimal, String>,
    /// The value as `Display` prints it.
    pub text: String,
    /// `Decimal::from_f64_retain(value / 1024.0)`.
    pub retained_div_1024: Option<Decimal>,
}

/// A number as plain values.
pub ghost struct NumberView {
    pub bits: u64,
    pub decimal: Result<Decimal, Seq<char>>,
    pub text: Seq<char>,
    pub retained_div_1024: Option<Decimal>,
}

impl View for Number {
    type V = NumberView;

    open spec fn view(&self) -> NumberView {
        NumberView {
            bits: self.bits,
            decimal: match self.decimal {
                Ok(d) => Ok(d),
                Err(e) => Err(e@),
            },
            text: self.text@,
            retained_div_1024: self.retained_div_1024,
        }
    }
}

/// Whether a binary64 encoding is a zero (positive or negative).
pub open spec fn encodes_zero(bits: u64) -> bool {
    bits & 0x7fff_ffff_ffff_ffff == 0
}

impl Number {
    /// Whether the number equals zero (`value == 0.0`).
    pub fn is_zero(&self) -> (b: bool)
        ensures
            b == encodes_zero(self.bits),
    {
        self.bits & 0x7fff_ffff_ffff_ffff == 0
    }

    /// Whether every decimal the number holds is well formed.
    pub open spec fn wf(self) -> bool {
        &&& (self.decimal matches Ok(d) ==> d.wf())
        &&& (self.retained_div_1024 matches Some(d) ==> d.wf())
    }

    /// A copy of this number.
    pub fn duplicate(&self) -> (n: Number)
        ensures
            n@ == self@,
            n.wf() == self.wf(),
    {
        Number {
            bits: self.bits,
            decimal: match &self.decimal {
                Ok(d) => Ok(*d),
                Err(e) => Err(e.clone()),
            },
            text: self.text.clone(),
            retained_div_1024: self.retained_div_1024,
        }
    }
}

/// A key and its value.
#[derive(Debug)]
pub struct TfAttribute {
    pub key: String,
    pub value: TfValue,
}

/// A Terraform value.
#[derive(Debug)]
pub enum TfValue {
    String(String),
    Number(Number),
    Bool(bool),
    List(Vec<TfValue>),
    /// Keyed values in insertion order, each key once.
    Object(Vec<TfAttribute>),
    /// Unresolved variable reference (e.g. `var.backend_cpu` as `VarRef("backend_cpu")`).
    VarRef(String),
    Null,
}

/// A value as plain values.
pub ghost enum ValueView {
    String(Seq<char>),
    Number(NumberView),
    Bool(bool),
    List(Seq<ValueView>),
    Object(Seq<(Seq<char>, ValueView)>),
    VarRef(Seq<char>),
    Null,
}

impl View for TfValue {
    type V = ValueView;

    open spec fn view(&self) -> ValueView
        decreases self,
    {
        match self {
            TfValue::String(s) => ValueView::String(s@),
            TfValue::Number(n) => ValueView::Number(n@),
            TfValue::Bool(b) => ValueView::Bool(*b),
            TfValue::List(v) => ValueView::List(list_view(v@)),
            TfValue::Object(m) => ValueView::Object(attrs_view(m@)),
            TfValue::VarRef(s) => ValueView::VarRef(s@),
            TfValue::Null => ValueView::Null,
        }
    }
}

/// The view of a value, one level deep.
pub proof fn lemma_value_view(v: TfValue)
    ensures
        v@ == match v {
            TfValue::String(s) => ValueView::String(s@),
            TfValue::Number(n) => ValueView::Number(n@),
            TfValue::Bool(b) => ValueView::Bool(b),
            TfValue::List(items) => ValueView::List(list_view(items@)),
            TfValue::Object(m) => ValueView::Object(attrs_view(m@)),
            TfValue::VarRef(s) => ValueView::VarRef(s@),
            TfValue::Null => ValueView::Null,
        },
{
    reveal_with_fuel(<TfValue as View>::view, 2);
}

/// The views of a list of values.
pub open spec fn list_view(s: Seq<TfValue>) -> Seq<ValueView>
    decreases s,
{
    if s.len() == 0 {
        Seq::empty()
    } else {
        list_view(s.drop_last()).push(s.last().view())
    }
}

/// The keyed values of an attribute list, as plain values.
pub open spec fn attrs_view(s: Seq<TfAttribute>) -> Seq<(Seq<char>, ValueView)>
    decreases s,
{
    if s.len() == 0 {
        Seq::empty()
    } else {
        attrs_view(s.drop_last()).push((s.last().key@, s.last().value.view()))
    }
}

/// A list's view holds the view of each value, in order.
pub proof fn lemma_list_view(s: Seq<TfValue>)
    ensures
        list_view(s).len() == s.len(),
        forall|j: int| 0 <= j < s.len() ==> #[trigger] list_view(s)[j] == s[j]@,
    decreases s.len(),
{
    reveal_with_fuel(list_view, 2);
    if s.len() > 0 {
        lemma_list_view(s.drop_last());
        assert forall|j: int| 0 <= j < s.len() implies #[trigger] list_view(s)[j] == s[j]@ by {
            if j < s.len() - 1 {
                assert(s.drop_last()[j] == s[j]);
            }
        }
    }
}

/// An attribute list's view holds each key and the view of its value, in order.
pub proof fn lemma_attrs_view(s: Seq<TfAttribute>)
    ensures
        attrs_view(s).len() == s.len(),
        forall|j: int| 0 <= j < s.len() ==> #[trigger] attrs_view(s)[j] == (s[j].key@, s[j].value@),
    decreases s.len(),
{
    reveal_with_fuel(attrs_view, 2);
    if s.len() > 0 {
        assert(attrs_view(s) == attrs_view(s.drop_last()).push((s.last().key@, s.last().value.view())));
        lemma_attrs_view(s.drop_last());
        assert forall|j: int| 0 <= j < s.len() implies #[trigger] attrs_view(s)[j] == (s[j].key@, s[j].value@) by {
            if j < s.len() - 1 {
                assert(s.drop_last()[j] == s[j]);
            }
        }
    }
}

/// Attribute lists with the same keys and value views have the same view.
pub proof fn lemma_attrs_view_ext(a: Seq<TfAttribute>, b: Seq<TfAttribute>)
    requires
        a.len() == b.len(),
        forall|j: int| 0 <= j < a.len() ==> (#[trigger] a[j]).key@ == b[j].key@ && a[j].value@ == b[j].value@,
    ensures
        attrs_view(a) == attrs_view(b),
{
    lemma_attrs_view(a);
    lemma_attrs_view(b);
    assert(attrs_view(a) =~= attrs_view(b));
}

/// The first position of key `k` among keyed values.
pub open spec fn find_attr(m: Seq<(Seq<char>, ValueView)>, k: Seq<char>) -> Option<int>
    decreases m.len(),
{
    if m.len() == 0 {
        None
    } else {
        match find_attr(m.drop_last(), k) {
            Some(p) => Some(p),
            None => if m.last().0 == k { Some(m.len() - 1) } else { None },
        }
    }
}

/// The value of key `k`, if it is there.
pub open spec fn lookup(m: Seq<(Seq<char>, ValueView)>, k: Seq<char>) -> Option<ValueView> {
    match find_attr(m, k) {
        Some(p) => Some(m[p].1),
        None => None,
    }
}

/// Facts about a found (or missing) key.
pub proof fn lemma_find_attr(m: Seq<(Seq<char>, ValueView)>, k: Seq<char>)
    ensures
        find_attr(m, k) matches Some(p) ==> 0 <= p < m.len() && m[p].0 == k && forall|i: int| 0 <= i < p ==> (#[trigger] m[i]).0 != k,
        find_attr(m, k) is None ==> forall|i: int| 0 <= i < m.len() ==> (#[trigger] m[i]).0 != k,
    decreases m.len(),
{
    if m.len() > 0 {
        lemma_find_attr(m.drop_last(), k);
        assert forall|i: int| 0 <= i < m.len() - 1 implies (#[trigger] m[i]) == m.drop_last()[i] by {}
    }
}

/// A key found in a prefix is found at the same place in the whole.
proof fn lemma_find_attr_prefix(m: Seq<(Seq<char>, ValueView)>, k: Seq<char>, n: int)
    requires
        0 <= n <= m.len(),
        find_attr(m.subrange(0, n), k) is Some,
    ensures
        find_attr(m, k) == find_attr(m.subrange(0, n), k),
    decreases m.len() - n,
{
    if n < m.len() {
        assert(m.subrange(0, n + 1).drop_last() =~= m.subrange(0, n));
        lemma_find_attr_prefix(m, k, n + 1);
    } else {
        assert(m.subrange(0, n) =~= m);
    }
}

/// The position of `key` among the attributes.
pub fn attr_position(m: &Vec<TfAttribute>, key: &str) -> (r: Option<usize>)
    ensures
        r matches Some(p) ==> find_attr(attrs_view(m@), key@) == Some(p as int) && p < m@.len(),
        r is None ==> find_attr(attrs_view(m@), key@) is None,
{
    let mut i: usize = 0;
    while i < m.len()
        invariant
            i <= m@.len(),
            find_attr(attrs_view(m@).subrange(0, i as int), key@) is None,
        decreases m.len() - i,
    {
        let ghost pre = attrs_view(m@).subrange(0, i + 1);
        proof {
            lemma_attrs_view(m@);
        }
        assert(pre.drop_last() =~= attrs_view(m@).subrange(0, i as int));
        if crate::text::str_eq(m[i].key.as_str(), key) {
            proof {
                lemma_find_attr_prefix(attrs_view(m@), key@, i + 1);
            }
            return Some(i);
        }
        i = i + 1;
    }
    proof {
        lemma_attrs_view(m@);
    }
    assert(attrs_view(m@).subrange(0, m@.len() as int) =~= attrs_view(m@));
    None
}

/// The value of `key` among the attributes (`IndexMap::get`).
pub fn attr_get<'a>(m: &'a Vec<TfAttribute>, key: &str) -> (r: Option<&'a TfValue>)
    ensures
        r matches Some(v) ==> lookup(attrs_view(m@), key@) == Some(v@),
        r is None ==> lookup(attrs_view(m@), key@) is None,
{
    proof {
        lemma_attrs_view(m@);
    }
    match attr_position(m, key) {
        Some(p) => Some(&m[p].value),
        None => None,
    }
}

/// Keyed values with `k` set to `v`: in place where `k` is present, at the
/// end otherwise.
pub open spec fn insert_attr(m: Seq<(Seq<char>, ValueView)>, k: Seq<char>, v: ValueView) -> Seq<(Seq<char>, ValueView)> {
    match find_attr(m, k) {
        Some(p) => m.update(p, (k, v)),
        None => m.push((k, v)),
    }
}

/// After a key is set, looking it up gives the value it was set to, and every
/// other key gives what it gave before.
pub proof fn lemma_insert_then_lookup(m: Seq<(Seq<char>, ValueView)>, k: Seq<char>, v: ValueView, other: Seq<char>)
    ensures
        lookup(insert_attr(m, k, v), k) == Some(v),
        other != k ==> lookup(insert_attr(m, k, v), other) == lookup(m, other),
{
    let m2 = insert_attr(m, k, v);
    lemma_find_attr(m, k);
    lemma_find_attr(m, other);
    lemma_find_attr(m2, k);
    lemma_find_attr(m2, other);
    match find_attr(m, k) {
        Some(p) => {
            assert(m2[p] == (k, v));
            if let Some(q) = find_attr(m2, k) {
                if q < p {
                    assert(m2[q] == m[q]);
                }
            }
            if other != k {
                match (find_attr(m, other), find_attr(m2, other)) {
                    (Some(a), Some(b)) => {
                        if a < b {
                            assert(m2[a] == m[a]);
                        } else if b < a {
                            assert(m2[b] == m[b]);
                        }
                    },
                    (Some(a), None) => {
                        assert(m2[a] == m[a]);
                    },
                    (None, Some(b)) => {
                        assert(m2[b] == m[b]);
                    },
                    (None, None) => {},
                }
            }
        },
        None => {
            assert(m2[m.len() as int] == (k, v));
            if let Some(q) = find_attr(m2, k) {
                if q < m.len() {
                    assert(m2[q] == m[q]);
                }
            }
            if other != k {
                match (find_attr(m, other), find_attr(m2, other)) {
                    (Some(a), Some(b)) => {
                        if a < b {
                            assert(m2[a] == m[a]);
                        } else if b < a {
                            assert(m2[b] == m[b]);
                        }
                    },
                    (Some(a), None) => {
                        assert(m2[a] == m[a]);
                    },
                    (None, Some(b)) => {
                        if b < m.len() {
                            assert(m2[b] == m[b]);
                        }
                    },
                    (None, None) => {},
                }
            }
        },
    }
}

/// Keyed values without `k`, the last entry taking its place.
pub open spec fn swap_remove_attr(m: Seq<(Seq<char>, ValueView)>, k: Seq<char>) -> Seq<(Seq<char>, ValueView)> {
    match find_attr(m, k) {
        Some(p) => m.update(p, m.last()).drop_last(),
        None => m,
    }
}

/// Removes `key`, moving the last attribute into its place
/// (`IndexMap::swap_remove`).
pub fn attr_swap_remove(m: &mut Vec<TfAttribute>, key: &str)
    ensures
        attrs_view(final(m)@) == swap_remove_attr(attrs_view(old(m)@), key@),
{
    match attr_position(m, key) {
        Some(p) => {
            let _ = m.swap_remove(p);
            proof {
                lemma_attrs_view(m@);
                lemma_attrs_view(old(m)@);
                let ov = attrs_view(old(m)@);
                assert(ov.last() == (old(m)@.last().key@, old(m)@.last().value@));
            }
            assert(attrs_view(m@) =~= swap_remove_attr(attrs_view(old(m)@), key@));
        },
        None => {},
    }
}

/// Sets `key` to `value`: in place where the key is present, at the end otherwise
/// (`IndexMap::insert`).
pub fn attr_insert(m: &mut Vec<TfAttribute>, key: String, value: TfValue)
    ensures
        attrs_view(final(m)@) == insert_attr(attrs_view(old(m)@), key@, value@),
        find_attr(attrs_view(old(m)@), key@) matches Some(p) ==> attrs_view(final(m)@) == attrs_view(old(m)@).update(p, (key@, value@)),
        find_attr(attrs_view(old(m)@), key@) is None ==> attrs_view(final(m)@) == attrs_view(old(m)@).push((key@, value@)),
{
    let ghost kv = key@;
    let ghost vv = value@;
    match attr_position(m, key.as_str()) {
        Some(p) => {
            m.set(p, TfAttribute { key, value });
            proof {
                lemma_attrs_view(m@);
                lemma_attrs_view(old(m)@);
            }
            assert(attrs_view(m@) =~= attrs_view(old(m)@).update(p as int, (kv, vv)));
        },
        None => {
            m.push(TfAttribute { key, value });
            proof {
                lemma_attrs_view(m@);
                lemma_attrs_view(old(m)@);
            }
            assert(attrs_view(m@) =~= attrs_view(old(m)@).push((kv, vv)));
        },
    }
}

impl TfValue {
    /// The text of a string value (`None` for any other value).
    pub fn as_str(&self) -> (r: Option<&str>)
        ensures
            r matches Some(s) ==> self@ == ValueView::String(s@),
            r is None ==> !(self@ is String),
    {
        match self {
            TfValue::String(s) => Some(s.as_str()),
            _ => None,
        }
    }

    /// The number of a number value (`None` for any other value); the program
    /// that holds the floats reads `as_f64` from it.
    pub fn as_number(&self) -> (r: Option<&Number>)
        ensures
            r matches Some(n) ==> self@ == ValueView::Number(n@) && (self matches TfValue::Number(m) && m == n),
            r is None ==> !(self@ is Number),
    {
        match self {
            TfValue::Number(n) => Some(n),
            _ => None,
        }
    }

    /// The truth value of a boolean value (`None` for any other value).
    pub fn as_bool(&self) -> (r: Option<bool>)
        ensures
            r matches Some(b) ==> self@ == ValueView::Bool(b),
            r is None ==> !(self@ is Bool),
    {
        match self {
            TfValue::Bool(b) => Some(*b),
            _ => None,
        }
    }

    /// A deep copy of this value.
    pub fn duplicate(&self) -> (r: TfValue)
        ensures
            r@ == self@,
        decreases self,
    {
        match self {
            TfValue::String(s) => TfValue::String(s.clone()),
            TfValue::Number(n) => TfValue::Number(n.duplicate()),
            TfValue::Bool(b) => TfValue::Bool(*b),
            TfValue::List(items) => {
                let out = duplicate_list(items);
                proof {
                    lemma_list_view(out@);
                    lemma_list_view(items@);
                    assert(list_view(out@) =~= list_view(items@));
                }
                TfValue::List(out)
            },
            TfValue::Object(m) => TfValue::Object(duplicate_attrs(m)),
            TfValue::VarRef(s) => TfValue::VarRef(s.clone()),
            TfValue::Null => TfValue::Null,
        }
    }
}

/// A deep copy of a list of values.
pub fn duplicate_list(v: &Vec<TfValue>) -> (r: Vec<TfValue>)
    ensures
        r@.len() == v@.len(),
        forall|j: int| 0 <= j < v@.len() ==> (#[trigger] r@[j])@ == v@[j]@,
    decreases v,
{
    let mut out: Vec<TfValue> = Vec::new();
    let mut i: usize = 0;
    while i < v.len()
        invariant
            i <= v@.len(),
            out@.len() == i,
            forall|j: int| 0 <= j < i ==> (#[trigger] out@[j])@ == v@[j]@,
        decreases v.len() - i,
    {
        out.push(v[i].duplicate());
        i = i + 1;
    }
    out
}

/// A deep copy of an attribute list.
pub fn duplicate_attrs(m: &Vec<TfAttribute>) -> (r: Vec<TfAttribute>)
    ensures
        attrs_view(r@) == attrs_view(m@),
    decreases m,
{
    let mut out: Vec<TfAttribute> = Vec::new();
    let mut i: usize = 0;
    while i < m.len()
        invariant
            i <= m@.len(),
            out@.len() == i,
            forall|j: int| 0 <= j < i ==> (#[trigger] out@[j]).key@ == m@[j].key@ && out@[j].value@ == m@[j].value@,
        decreases m.len() - i,
    {
        out.push(TfAttribute { key: m[i].key.clone(), value: m[i].value.duplicate() });
        i = i + 1;
    }
    proof {
        lemma_attrs_view_ext(out@, m@);
    }
    out
}

/// The value reached from `v` by following the keys of `path` through nested
/// objects.
pub open spec fn walk(v: ValueView, path: Seq<Seq<char>>) -> Option<ValueView>
    decreases path.len(),
{
    if path.len() == 0 {
        Some(v)
    } else {
        match v {
            ValueView::Object(m) => match lookup(m, path[0]) {
                Some(w) => walk(w, path.drop_first()),
                None => None,
            },
            _ => None,
        }
    }
}

/// The value at a non-empty key path among attributes.
pub open spec fn nested(attrs: Seq<(Seq<char>, ValueView)>, path: Seq<Seq<char>>) -> Option<ValueView> {
    if path.len() == 0 {
        None
    } else {
        match lookup(attrs, path[0]) {
            Some(v) => walk(v, path.drop_first()),
            None => None,
        }
    }
}

/// The texts of a path of keys.
pub open spec fn path_view(path: Seq<&str>) -> Seq<Seq<char>> {
    path.map_values(|p: &str| p@)
}

/// The string held by a value, if it is a string.
pub open spec fn string_of_view(v: Option<ValueView>) -> Option<Seq<char>> {
    match v {
        Some(ValueView::String(s)) => Some(s),
        _ => None,
    }
}

/// The number held by a value, if it is a number.
pub open spec fn number_of_view(v: Option<ValueView>) -> Option<NumberView> {
    match v {
        Some(ValueView::Number(n)) => Some(n),
        _ => None,
    }
}

/// A resource of a Terraform configuration: its address and attributes.
#[derive(Debug)]
pub struct TfResource {
    pub address: ResourceAddress,
    pub attributes: Vec<TfAttribute>,
}

/// A resource as plain values.
pub ghost struct ResourceView {
    pub address: crate::resource::AddressView,
    pub attributes: Seq<(Seq<char>, ValueView)>,
}

impl View for TfResource {
    type V = ResourceView;

    open spec fn view(&self) -> ResourceView {
        ResourceView { address: self.address@, attributes: attrs_view(self.attributes@) }
    }
}

impl TfResource {
    /// The attribute `key`.
    pub fn get(&self, key: &str) -> (r: Option<&TfValue>)
        ensures
            r matches Some(v) ==> lookup(self@.attributes, key@) == Some(v@),
            r is None ==> lookup(self@.attributes, key@) is None,
    {
        attr_get(&self.attributes, key)
    }

    /// The attribute `key` when it is a string.
    pub fn get_string(&self, key: &str) -> (r: Option<&str>)
        ensures
            r matches Some(s) ==> string_of_view(lookup(self@.attributes, key@)) == Some(s@),
            r is None ==> string_of_view(lookup(self@.attributes, key@)) is None,
    {
        match self.get(key) {
            Some(v) => v.as_str(),
            None => None,
        }
    }

    /// The attribute `key` when it is a number.
    pub fn get_number(&self, key: &str) -> (r: Option<&Number>)
        ensures
            r matches Some(n) ==> number_of_view(lookup(self@.attributes, key@)) == Some(n@),
            r is None ==> number_of_view(lookup(self@.attributes, key@)) is None,
    {
        match self.get(key) {
            Some(v) => v.as_number(),
            None => None,
        }
    }

    /// The value at a path of keys through nested objects; `None` for an empty
    /// path.
    pub fn get_nested(&self, path: &[&str]) -> (r: Option<&TfValue>)
        ensures
            r matches Some(v) ==> nested(self@.attributes, path_view(path@)) == Some(v@),
            r is None ==> nested(self@.attributes, path_view(path@)) is None,
    {
        if path.len() == 0 {
            return None;
        }
        let ghost pv = path_view(path@);
        let mut current: &TfValue = match attr_get(&self.attributes, path[0]) {
            Some(v) => v,
            None => return None,
        };
        let mut i: usize = 1;
        while i < path.len()
            invariant
                1 <= i <= path@.len(),
                pv == path_view(path@),
                pv.len() == path@.len(),
                nested(self@.attributes, pv) == walk(current@, pv.subrange(i as int, pv.len() as int)),
            decreases path.len() - i,
        {
            let ghost rest = pv.subrange(i as int, pv.len() as int);
            assert(rest[0] == path@[i as int]@);
            assert(rest.drop_first() =~= pv.subrange(i + 1, pv.len() as int));
            match current {
                TfValue::Object(m) => {
                    match attr_get(m, path[i]) {
                        Some(v) => {
                            current = v;
                        },
                        None => {
                            return None;
                        },
                    }
                },
                _ => {
                    return None;
                },
            }
            i = i + 1;
        }
        assert(pv.subrange(i as int, pv.len() as int) =~= Seq::<Seq<char>>::empty());
        Some(current)
    }

    /// The string at a path of keys.
    pub fn get_nested_str(&self, path: &[&str]) -> (r: Option<&str>)
        ensures
            r matches Some(s) ==> string_of_view(nested(self@.attributes, path_view(path@))) == Some(s@),
            r is None ==> string_of_view(nested(self@.attributes, path_view(path@))) is None,
    {
        match self.get_nested(path) {
            Some(v) => v.as_str(),
            None => None,
        }
    }

    /// The number at a path of keys.
    pub fn get_nested_number(&self, path: &[&str]) -> (r: Option<&Number>)
        ensures
            r matches Some(n) ==> number_of_view(nested(self@.attributes, path_view(path@))) == Some(n@),
            r is None ==> number_of_view(nested(self@.attributes, path_view(path@))) is None,
    {
        match self.get_nested(path) {
            Some(v) => v.as_number(),
            None => None,
        }
    }

    /// A deep copy of this resource.
    pub fn duplicate(&self) -> (r: TfResource)
        ensures
            r@ == self@,
    {
        TfResource {
            address: crate::cost::duplicate_address(&self.address),
            attributes: duplicate_attrs(&self.attributes),
        }
    }
}

/// A resource stored under its printed address.
#[derive(Debug)]
pub struct StateEntry {
    pub key: String,
    pub resource: TfResource,
}

/// The resources of a configuration, keyed by printed address in the order
/// they were first added.
#[derive(Debug)]
pub struct State {
    pub resources: Vec<StateEntry>,
}

/// The entries of a state as plain values.
pub open spec fn entries_view(es: Seq<StateEntry>) -> Seq<(Seq<char>, ResourceView)> {
    es.map_values(|e: StateEntry| (e.key@, e.resource@))
}

/// The first position of key `k` among state entries.
pub open spec fn find_entry(es: Seq<(Seq<char>, ResourceView)>, k: Seq<char>) -> Option<int>
    decreases es.len(),
{
    if es.len() == 0 {
        None
    } else {
        match find_entry(es.drop_last(), k) {
            Some(p) => Some(p),
            None => if es.last().0 == k { Some(es.len() - 1) } else { None },
        }
    }
}

/// A key found in a prefix of the entries is found at the same place in all of them.
proof fn lemma_find_entry_prefix(es: Seq<(Seq<char>, ResourceView)>, k: Seq<char>, n: int)
    requires
        0 <= n <= es.len(),
        find_entry(es.subrange(0, n), k) is Some,
    ensures
        find_entry(es, k) == find_entry(es.subrange(0, n), k),
    decreases es.len() - n,
{
    if n < es.len() {
        assert(es.subrange(0, n + 1).drop_last() =~= es.subrange(0, n));
        lemma_find_entry_prefix(es, k, n + 1);
    } else {
        assert(es.subrange(0, n) =~= es);
    }
}

/// Facts about a found (or missing) key among state entries.
pub proof fn lemma_find_entry(es: Seq<(Seq<char>, ResourceView)>, k: Seq<char>)
    ensures
        find_entry(es, k) matches Some(p) ==> 0 <= p < es.len() && es[p].0 == k,
        find_entry(es, k) is None ==> forall|i: int| 0 <= i < es.len() ==> (#[trigger] es[i]).0 != k,
    decreases es.len(),
{
    if es.len() > 0 {
        lemma_find_entry(es.drop_last(), k);
        assert forall|i: int| 0 <= i < es.len() - 1 implies (#[trigger] es[i]) == es.drop_last()[i] by {}
    }
}

impl State {
    /// A state without resources.
    pub fn new() -> (s: State)
        ensures
            s.resources@.len() == 0,
    {
        State { resources: Vec::new() }
    }

    /// The position of the resource stored under `key`.
    pub fn position(&self, key: &String) -> (r: Option<usize>)
        ensures
            r matches Some(p) ==> find_entry(entries_view(self.resources@), key@) == Some(p as int) && p < self.resources@.len(),
            r is None ==> find_entry(entries_view(self.resources@), key@) is None,
    {
        let ghost ev = entries_view(self.resources@);
        let mut i: usize = 0;
        while i < self.resources.len()
            invariant
                i <= self.resources@.len(),
                ev == entries_view(self.resources@),
                find_entry(ev.subrange(0, i as int), key@) is None,
            decreases self.resources.len() - i,
        {
            let ghost pre = ev.subrange(0, i + 1);
            assert(pre.drop_last() =~= ev.subrange(0, i as int));
            assert(pre.last() == ev[i as int]);
            if self.resources[i].key == *key {
                proof {
                    lemma_find_entry_prefix(ev, key@, i + 1);
                }
                return Some(i);
            }
            i = i + 1;
        }
        assert(ev.subrange(0, self.resources@.len() as int) =~= ev);
        None
    }

    /// Stores `resource` under its printed address: in place of a resource with
    /// the same address, or after all others.
    pub fn add_resource(&mut self, resource: TfResource)
        ensures
            ({
                let k = address_text(resource@.address);
                let old_es = entries_view(old(self).resources@);
                match find_entry(old_es, k) {
                    Some(p) => entries_view(final(self).resources@) == old_es.update(p, (k, resource@)),
                    None => entries_view(final(self).resources@) == old_es.push((k, resource@)),
                }
            }),
    {
        let key = resource.address.to_string();
        let ghost rv = resource@;
        let ghost old_rs = self.resources@;
        match self.position(&key) {
            Some(p) => {
                self.resources.set(p, StateEntry { key, resource });
                assert(entries_view(self.resources@) =~= entries_view(old_rs).update(p as int, (address_text(rv.address), rv)));
            },
            None => {
                self.resources.push(StateEntry { key, resource });
                assert(entries_view(self.resources@) =~= entries_view(old_rs).push((address_text(rv.address), rv)));
            },
        }
    }

    /// The resource stored under `key`.
    pub fn get(&self, key: &String) -> (r: Option<&TfResource>)
        ensures
            r matches Some(x) ==> (find_entry(entries_view(self.resources@), key@) matches Some(p) && entries_view(self.resources@)[p].1 == x@),
            r is None ==> find_entry(entries_view(self.resources@), key@) is None,
    {
        match self.position(key) {
            Some(p) => Some(&self.resources[p].resource),
            None => None,
        }
    }
}

/// After a resource is added, it is what is stored under its address.
pub proof fn lemma_add_then_get(before: Seq<(Seq<char>, ResourceView)>, after: Seq<(Seq<char>, ResourceView)>, r: ResourceView)
    requires
        ({
            let k = address_text(r.address);
            match find_entry(before, k) {
                Some(p) => after == before.update(p, (k, r)),
                None => after == before.push((k, r)),
            }
        }),
    ensures
        find_entry(after, address_text(r.address)) matches Some(p) && after[p].1 == r,
{
    let k = address_text(r.address);
    lemma_find_entry(before, k);
    lemma_find_entry(after, k);
    match find_entry(before, k) {
        Some(p) => {
            assert(after[p] == (k, r));
            match find_entry(after, k) {
                Some(q) => {
                    if q < p {
                        lemma_find_entry_first(before, k, q, p);
                        assert(after[q] == before[q]);
                    } else if q > p {
                        lemma_find_entry_first(after, k, p, q);
                    }
                },
                None => {
                    assert(after[p].0 == k);
                },
            }
        },
        None => {
            let n = before.len() as int;
            assert(after[n] == (k, r));
            match find_entry(after, k) {
                Some(q) => {
                    if q < n {
                        assert(after[q] == before[q]);
                    }
                },
                None => {
                    assert(after[n].0 == k);
                },
            }
        },
    }
}

/// No entry before the found position has the key.
proof fn lemma_find_entry_first(es: Seq<(Seq<char>, ResourceView)>, k: Seq<char>, q: int, p: int)
    requires
        find_entry(es, k) == Some(p),
        0 <= q < p,
    ensures
        es[q].0 != k,
    decreases es.len(),
{
    lemma_find_entry(es, k);
    if find_entry(es.drop_last(), k) is Some {
        lemma_find_entry_first(es.drop_last(), k, q, p);
        assert(es.drop_last()[q] == es[q]);
    } else {
        lemma_find_entry(es.drop_last(), k);
        assert(es.drop_last()[q] == es[q]);
    }
}

} // verus!
