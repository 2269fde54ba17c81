//! Array parameters for Spanner statements: the list values they are sent as.

use vstd::prelude::*;
use crate::text::{owned, push_signed_decimal, signed_decimal};

verus! {

/// One element of a list value as it goes over the wire: a boolean, or text (integers are
/// sent as their decimal text, bytes as base64).
#[derive(Debug)]
pub enum WireItem {
    Bool(bool),
    Text(String),
}

/// The value of a wire element.
pub enum WireItemModel {
    Bool(bool),
    Text(Seq<char>),
}

impl View for WireItem {
    type V = WireItemModel;

    open spec fn view(&self) -> WireItemModel {
        match self {
            WireItem::Bool(b) => WireItemModel::Bool(*b),
            WireItem::Text(t) => WireItemModel::Text(t@),
        }
    }
}

/// The values of wire elements.
pub open spec fn wire_models(items: Seq<WireItem>) -> Seq<WireItemModel> {
    items.map_values(|w: WireItem| w@)
}

/// The standard base64 encoding (with padding) of `bytes`, as `base64::encode` gives it.
pub uninterp spec fn base64_text(bytes: Seq<u8>) -> Seq<char>;

/// The standard base64 encoding of `bytes`.
///
/// Trusted: `base64::encode` (the `STANDARD` engine, with padding); the result is named by
/// `base64_text`.
#[verifier::external_body]
#[allow(deprecated)]
fn base64_encode(bytes: &[u8]) -> (r: String)
    ensures
        r@ == base64_text(bytes@),
{
    base64::encode(bytes)
}

/// An `ARRAY<INT64>` parameter.
pub struct SpannerInt64Array(pub Vec<i64>);

/// A nullable `ARRAY<INT64>` parameter.
pub struct SpannerOptionalInt64Array(pub Option<Vec<i64>>);

/// An `ARRAY<STRING>` parameter.
pub struct SpannerStringArray(pub Vec<String>);

/// A nullable `ARRAY<STRING>` parameter.
pub struct SpannerOptionalStringArray(pub Option<Vec<String>>);

/// An `ARRAY<BOOL>` parameter.
pub struct SpannerBoolArray(pub Vec<bool>);

/// A nullable `ARRAY<BOOL>` parameter.
pub struct SpannerOptionalBoolArray(pub Option<Vec<bool>>);

/// An `ARRAY<BYTES>` parameter.
pub struct SpannerBytesArray(pub Vec<Vec<u8>>);

/// A nullable `ARRAY<BYTES>` parameter.
pub struct SpannerOptionalBytesArray(pub Option<Vec<Vec<u8>>>);

/// The wire elements of integers: their decimal texts.
pub open spec fn int64_items(v: Seq<i64>) -> Seq<WireItemModel> {
    v.map_values(|x: i64| WireItemModel::Text(signed_decimal(x as int)))
}

/// The wire elements of strings: the strings themselves.
pub open spec fn string_items(v: Seq<String>) -> Seq<WireItemModel> {
    v.map_values(|x: String| WireItemModel::Text(x@))
}

/// The wire elements of booleans.
pub open spec fn bool_items(v: Seq<bool>) -> Seq<WireItemModel> {
    v.map_values(|x: bool| WireItemModel::Bool(x))
}

/// The wire elements of byte strings: their base64 texts.
pub open spec fn bytes_items(v: Seq<Vec<u8>>) -> Seq<WireItemModel> {
    v.map_values(|x: Vec<u8>| WireItemModel::Text(base64_text(x@)))
}

/// Mapping a sequence with one more element.
proof fn lemma_map_push<A, B>(s: Seq<A>, x: A, f: spec_fn(A) -> B)
    ensures
        s.push(x).map_values(f) == s.map_values(f).push(f(x)),
{
    assert(s.push(x).map_values(f) =~= s.map_values(f).push(f(x)));
}

fn int64_wire(v: &Vec<i64>) -> (r: Vec<WireItem>)
    ensures
        wire_models(r@) == int64_items(v@),
{
    let mut r: Vec<WireItem> = Vec::new();
    let mut i: usize = 0;
    while i < v.len()
        invariant
            i <= v.len(),
            wire_models(r@) == int64_items(v@.take(i as int)),
        decreases v.len() - i,
    {
        let mut t = String::new();
        push_signed_decimal(&mut t, v[i]);
        assert(t@ =~= signed_decimal(v@[i as int] as int));
        let ghost prev = r@;
        r.push(WireItem::Text(t));
        proof {
            lemma_map_push(prev, r@.last(), |w: WireItem| w@);
            assert(v@.take(i + 1) =~= v@.take(i as int).push(v@[i as int]));
            lemma_map_push(v@.take(i as int), v@[i as int], |x: i64| WireItemModel::Text(signed_decimal(x as int)));
        }
        i = i + 1;
    }
    assert(v@.take(v.len() as int) =~= v@);
    r
}

fn string_wire(v: &Vec<String>) -> (r: Vec<WireItem>)
    ensures
        wire_models(r@) == string_items(v@),
{
    let mut r: Vec<WireItem> = Vec::new();
    let mut i: usize = 0;
    while i < v.len()
        invariant
            i <= v.len(),
            wire_models(r@) == string_items(v@.take(i as int)),
        decreases v.len() - i,
    {
        let ghost prev = r@;
        r.push(WireItem::Text(owned(v[i].as_str())));
        proof {
            lemma_map_push(prev, r@.last(), |w: WireItem| w@);
            assert(v@.take(i + 1) =~= v@.take(i as int).push(v@[i as int]));
            lemma_map_push(v@.take(i as int), v@[i as int], |x: String| WireItemModel::Text(x@));
        }
        i = i + 1;
    }
    assert(v@.take(v.len() as int) =~= v@);
    r
}

fn bool_wire(v: &Vec<bool>) -> (r: Vec<WireItem>)
    ensures
        wire_models(r@) == bool_items(v@),
{
    let mut r: Vec<WireItem> = Vec::new();
    let mut i: usize = 0;
    while i < v.len()
        invariant
            i <= v.len(),
            wire_models(r@) == bool_items(v@.take(i as int)),
        decreases v.len() - i,
    {
        let ghost prev = r@;
        r.push(WireItem::Bool(v[i]));
        proof {
            lemma_map_push(prev, r@.last(), |w: WireItem| w@);
            assert(v@.take(i + 1) =~= v@.take(i as int).push(v@[i as int]));
            lemma_map_push(v@.take(i as int), v@[i as int], |x: bool| WireItemModel::Bool(x));
        }
        i = i + 1;
    }
    assert(v@.take(v.len() as int) =~= v@);
    r
}

fn bytes_wire(v: &Vec<Vec<u8>>) -> (r: Vec<WireItem>)
    ensures
        wire_models(r@) == bytes_items(v@),
{
    let mut r: Vec<WireItem> = Vec::new();
    let mut i: usize = 0;
    while i < v.len()
        invariant
            i <= v.len(),
            wire_models(r@) == bytes_items(v@.take(i as int)),
        decreases v.len() - i,
    {
        let ghost prev = r@;
        r.push(WireItem::Text(base64_encode(v[i].as_slice())));
        proof {
            lemma_map_push(prev, r@.last(), |w: WireItem| w@);
            assert(v@.take(i + 1) =~= v@.take(i as int).push(v@[i as int]));
            lemma_map_push(v@.take(i as int), v@[i as int], |x: Vec<u8>| WireItemModel::Text(base64_text(x@)));
        }
        i = i + 1;
    }
    assert(v@.take(v.len() as int) =~= v@);
    r
}

impl SpannerInt64Array {
    /// The list value's elements: each integer's decimal text.
    pub fn wire_items(&self) -> (r: Vec<WireItem>)
        ensures
            wire_models(r@) == int64_items(self.0@),
    {
        int64_wire(&self.0)
    }
}

impl SpannerOptionalInt64Array {
    /// A present array.
    pub fn some(v: Vec<i64>) -> (r: Self)
        ensures
            r.0 == Some(v),
    {
        SpannerOptionalInt64Array(Some(v))
    }

    /// A NULL array.
    pub fn none() -> (r: Self)
        ensures
            r.0 is None,
    {
        SpannerOptionalInt64Array(None)
    }

    /// The list value's elements, or `None` for NULL.
    pub fn wire_items(&self) -> (r: Option<Vec<WireItem>>)
        ensures
            match self.0 {
                Some(v) => r matches Some(w) && wire_models(w@) == int64_items(v@),
                None => r is None,
            },
    {
        match &self.0 {
            Some(v) => Some(int64_wire(v)),
            None => None,
        }
    }
}

impl SpannerStringArray {
    /// The list value's elements: the strings.
    pub fn wire_items(&self) -> (r: Vec<WireItem>)
        ensures
            wire_models(r@) == string_items(self.0@),
    {
        string_wire(&self.0)
    }
}

impl SpannerOptionalStringArray {
    /// A present array.
    pub fn some(v: Vec<String>) -> (r: Self)
        ensures
            r.0 == Some(v),
    {
        SpannerOptionalStringArray(Some(v))
    }

    /// A NULL array.
    pub fn none() -> (r: Self)
        ensures
            r.0 is None,
    {
        SpannerOptionalStringArray(None)
    }

    /// The list value's elements, or `None` for NULL.
    pub fn wire_items(&self) -> (r: Option<Vec<WireItem>>)
        ensures
            match self.0 {
                Some(v) => r matches Some(w) && wire_models(w@) == string_items(v@),
                None => r is None,
            },
    {
        match &self.0 {
            Some(v) => Some(string_wire(v)),
            None => None,
        }
    }
}

impl SpannerBoolArray {
    /// The list value's elements: the booleans.
    pub fn wire_items(&self) -> (r: Vec<WireItem>)
        ensures
            wire_models(r@) == bool_items(self.0@),
    {
        bool_wire(&self.0)
    }
}

impl SpannerOptionalBoolArray {
    /// A present array.
    pub fn some(v: Vec<bool>) -> (r: Self)
        ensures
            r.0 == Some(v),
    {
        SpannerOptionalBoolArray(Some(v))
    }

    /// A NULL array.
    pub fn none() -> (r: Self)
        ensures
            r.0 is None,
    {
        SpannerOptionalBoolArray(None)
    }

    /// The list value's elements, or `None` for NULL.
    pub fn wire_items(&self) -> (r: Option<Vec<WireItem>>)
        ensures
            match self.0 {
                Some(v) => r matches Some(w) && wire_models(w@) == bool_items(v@),
                None => r is None,
            },
    {
        match &self.0 {
            Some(v) => Some(bool_wire(v)),
            None => None,
        }
    }
}

impl SpannerBytesArray {
    /// The list value's elements: each byte string in base64.
    pub fn wire_items(&self) -> (r: Vec<WireItem>)
        ensures
            wire_models(r@) == bytes_items(self.0@),
    {
        bytes_wire(&self.0)
    }
}

impl SpannerOptionalBytesArray {
    /// A present array.
    pub fn some(v: Vec<Vec<u8>>) -> (r: Self)
        ensures
            r.0 == Some(v),
    {
        SpannerOptionalBytesArray(Some(v))
    }

    /// A NULL array.
    pub fn none() -> (r: Self)
        ensures
            r.0 is None,
    {
        SpannerOptionalBytesArray(None)
    }

    /// The list value's elements, or `None` for NULL.
    pub fn wire_items(&self) -> (r: Option<Vec<WireItem>>)
        ensures
            match self.0 {
                Some(v) => r matches Some(w) && wire_models(w@) == bytes_items(v@),
                None => r is None,
            },
    {
        match &self.0 {
            Some(v) => Some(bytes_wire(v)),
            None => None,
        }
    }
}

} // verus!
