//! The JSON value model that inbound frames are read into, and the
//! primitive readers that turn its parts into plain values.
use vstd::prelude::*;

verus! {

/// A JSON number as the wire carries it. Fractional and exponent numbers are
/// kept as a bare marker: no rule of this library reads their value.
#[derive(Debug, Clone, Copy, PartialEq, Eq)]
pub enum JsonNumber {
    PosInt(u64),
    NegInt(i64),
    Float,
}

/// One `"key": value` member of a JSON object.
#[derive(Debug, PartialEq)]
pub struct Field {
    pub key: String,
    pub value: Json,
}

/// A JSON document. Object members keep the order in which they were read.
#[derive(Debug, PartialEq)]
pub enum Json {
    Null,
    Bool(bool),
    Number(JsonNumber),
    Str(String),
    Array(Vec<Json>),
    Object(Vec<Field>),
}

/// The value of the first member of `fields` whose key is `key`.
pub open spec fn lookup(fields: Seq<Field>, key: Seq<char>) -> Option<Json>
    decreases fields.len(),
{
    if fields.len() == 0 {
        None
    } else if fields[0].key@ == key {
        Some(fields[0].value)
    } else {
        lookup(fields.drop_first(), key)
    }
}

/// The view of an optional vector.
pub open spec fn seq_opt<T>(r: Option<Vec<T>>) -> Option<Seq<T>> {
    match r {
        Some(v) => Some(v@),
        None => None,
    }
}

/// Reads every element of `items` with `f`; `None` as soon as one element
/// cannot be read.
pub open spec fn list_of<T>(items: Seq<Json>, f: spec_fn(Json) -> Option<T>) -> Option<Seq<T>>
    decreases items.len(),
{
    if items.len() == 0 {
        Some(Seq::empty())
    } else {
        match list_of(items.drop_last(), f) {
            Some(prefix) => match f(items.last()) {
                Some(x) => Some(prefix.push(x)),
                None => None,
            },
            None => None,
        }
    }
}

/// An unsigned 32-bit integer: a non-negative integer number in range.
pub open spec fn as_u32(j: Json) -> Option<u32> {
    match j {
        Json::Number(JsonNumber::PosInt(v)) => if v <= u32::MAX {
            Some(v as u32)
        } else {
            None
        },
        _ => None,
    }
}

pub open spec fn as_bool(j: Json) -> Option<bool> {
    match j {
        Json::Bool(b) => Some(b),
        _ => None,
    }
}

pub open spec fn as_text(j: Json) -> Option<String> {
    match j {
        Json::Str(s) => Some(s),
        _ => None,
    }
}

/// The elements of an array; `None` for any other value.
pub open spec fn elements(j: Json) -> Option<Seq<Json>> {
    match j {
        Json::Array(items) => Some(items@),
        _ => None,
    }
}

/// The members of an object; `None` for any other value.
pub open spec fn members(j: Json) -> Option<Seq<Field>> {
    match j {
        Json::Object(fs) => Some(fs@),
        _ => None,
    }
}

pub open spec fn u32_decoder() -> spec_fn(Json) -> Option<u32> {
    |x: Json| as_u32(x)
}

pub open spec fn text_decoder() -> spec_fn(Json) -> Option<String> {
    |x: Json| as_text(x)
}

/// A required member read as `u32`.
pub open spec fn u32_at(fs: Seq<Field>, key: Seq<char>) -> Option<u32> {
    match lookup(fs, key) {
        Some(v) => as_u32(v),
        None => None,
    }
}

pub open spec fn bool_at(fs: Seq<Field>, key: Seq<char>) -> Option<bool> {
    match lookup(fs, key) {
        Some(v) => as_bool(v),
        None => None,
    }
}

pub open spec fn text_at(fs: Seq<Field>, key: Seq<char>) -> Option<String> {
    match lookup(fs, key) {
        Some(v) => as_text(v),
        None => None,
    }
}

/// An optional member: absent or `null` reads as `Some(None)`.
pub open spec fn opt_u32_at(fs: Seq<Field>, key: Seq<char>) -> Option<Option<u32>> {
    match lookup(fs, key) {
        None => Some(None),
        Some(Json::Null) => Some(None),
        Some(v) => match as_u32(v) {
            Some(x) => Some(Some(x)),
            None => None,
        },
    }
}

pub open spec fn opt_text_at(fs: Seq<Field>, key: Seq<char>) -> Option<Option<String>> {
    match lookup(fs, key) {
        None => Some(None),
        Some(Json::Null) => Some(None),
        Some(v) => match as_text(v) {
            Some(x) => Some(Some(x)),
            None => None,
        },
    }
}

/// A required member that is an array of `u32`.
pub open spec fn u32_list_at(fs: Seq<Field>, key: Seq<char>) -> Option<Seq<u32>> {
    match lookup(fs, key) {
        Some(Json::Array(items)) => list_of(items@, u32_decoder()),
        _ => None,
    }
}

/// A required member that is an array of strings.
pub open spec fn text_list_at(fs: Seq<Field>, key: Seq<char>) -> Option<Seq<String>> {
    match lookup(fs, key) {
        Some(Json::Array(items)) => list_of(items@, text_decoder()),
        _ => None,
    }
}

proof fn lemma_lookup_skip(fs: Seq<Field>, i: int, key: Seq<char>)
    requires
        0 <= i < fs.len(),
        fs[i].key@ != key,
    ensures
        lookup(fs.subrange(i, fs.len() as int), key) == lookup(fs.subrange(i + 1, fs.len() as int), key),
{
    assert(fs.subrange(i, fs.len() as int).drop_first() =~= fs.subrange(i + 1, fs.len() as int));
}

/// One more element read keeps the prefix's reading and appends to it.
pub proof fn lemma_list_of_step<T>(items: Seq<Json>, i: int, f: spec_fn(Json) -> Option<T>)
    requires
        0 <= i < items.len(),
    ensures
        list_of(items.take(i + 1), f) == (match list_of(items.take(i), f) {
            Some(prefix) => match f(items[i]) {
                Some(x) => Some(prefix.push(x)),
                None => None,
            },
            None => None,
        }),
{
    assert(items.take(i + 1).drop_last() =~= items.take(i));
    assert(items.take(i + 1).last() == items[i]);
}

/// Once a prefix cannot be read, neither can the whole sequence.
pub proof fn lemma_list_of_fails<T>(items: Seq<Json>, k: int, f: spec_fn(Json) -> Option<T>)
    requires
        0 <= k <= items.len(),
        list_of(items.take(k), f) is None,
    ensures
        list_of(items, f) is None,
    decreases items.len() - k,
{
    if k == items.len() {
        assert(items.take(k) =~= items);
    } else {
        lemma_list_of_step(items, k, f);
        lemma_list_of_fails(items, k + 1, f);
    }
}

/// Whether `s` holds exactly the characters of `lit`.
pub fn text_is(s: &String, lit: &str) -> (r: bool)
    ensures
        r == (s@ == lit@),
{
    let owned = lit.to_owned();
    *s == owned
}

/// The first member of `fields` with the given key.
pub fn find_field<'a>(fields: &'a Vec<Field>, key: &str) -> (r: Option<&'a Json>)
    ensures
        match r {
            Some(v) => lookup(fields@, key@) == Some(*v),
            None => lookup(fields@, key@) is None,
        },
{
    let mut i: usize = 0;
    assert(fields@.subrange(0, fields@.len() as int) =~= fields@);
    while i < fields.len()
        invariant
            i <= fields@.len(),
            lookup(fields@, key@) == lookup(fields@.subrange(i as int, fields@.len() as int), key@),
        decreases fields.len() - i,
    {
        let f = &fields[i];
        if text_is(&f.key, key) {
            return Some(&f.value);
        }
        proof {
            lemma_lookup_skip(fields@, i as int, key@);
        }
        i += 1;
    }
    None
}

pub fn read_u32(j: &Json) -> (r: Option<u32>)
    ensures
        r == as_u32(*j),
{
    match j {
        Json::Number(JsonNumber::PosInt(v)) => if *v <= 0xffff_ffffu64 {
            Some(*v as u32)
        } else {
            None
        },
        _ => None,
    }
}

pub fn read_text(j: &Json) -> (r: Option<String>)
    ensures
        r == as_text(*j),
{
    match j {
        Json::Str(s) => Some(s.clone()),
        _ => None,
    }
}

pub fn u32_field(fs: &Vec<Field>, key: &str) -> (r: Option<u32>)
    ensures
        r == u32_at(fs@, key@),
{
    match find_field(fs, key) {
        Some(v) => read_u32(v),
        None => None,
    }
}

pub fn bool_field(fs: &Vec<Field>, key: &str) -> (r: Option<bool>)
    ensures
        r == bool_at(fs@, key@),
{
    match find_field(fs, key) {
        Some(Json::Bool(b)) => Some(*b),
        _ => None,
    }
}

pub fn text_field(fs: &Vec<Field>, key: &str) -> (r: Option<String>)
    ensures
        r == text_at(fs@, key@),
{
    match find_field(fs, key) {
        Some(v) => read_text(v),
        None => None,
    }
}

pub fn opt_u32_field(fs: &Vec<Field>, key: &str) -> (r: Option<Option<u32>>)
    ensures
        r == opt_u32_at(fs@, key@),
{
    match find_field(fs, key) {
        None => Some(None),
        Some(Json::Null) => Some(None),
        Some(v) => match read_u32(v) {
            Some(x) => Some(Some(x)),
            None => None,
        },
    }
}

pub fn opt_text_field(fs: &Vec<Field>, key: &str) -> (r: Option<Option<String>>)
    ensures
        r == opt_text_at(fs@, key@),
{
    match find_field(fs, key) {
        None => Some(None),
        Some(Json::Null) => Some(None),
        Some(v) => match read_text(v) {
            Some(x) => Some(Some(x)),
            None => None,
        },
    }
}

pub fn u32_list_field(fs: &Vec<Field>, key: &str) -> (r: Option<Vec<u32>>)
    ensures
        seq_opt(r) == u32_list_at(fs@, key@),
{
    match find_field(fs, key) {
        Some(Json::Array(items)) => {
            let mut out: Vec<u32> = Vec::new();
            let mut i: usize = 0;
            while i < items.len()
                invariant
                    i <= items@.len(),
                    list_of(items@.take(i as int), u32_decoder()) == Some(out@),
                    lookup(fs@, key@) == Some(Json::Array(*items)),
                decreases items.len() - i,
            {
                proof {
                    lemma_list_of_step(items@, i as int, u32_decoder());
                }
                match read_u32(&items[i]) {
                    Some(v) => out.push(v),
                    None => {
                        proof {
                            assert(list_of(items@.take(i + 1), u32_decoder()) is None);
                            lemma_list_of_fails(items@, i + 1, u32_decoder());
                        }
                        return None;
                    },
                }
                i += 1;
            }
            assert(items@.take(items@.len() as int) =~= items@);
            Some(out)
        },
        _ => None,
    }
}

pub fn text_list_field(fs: &Vec<Field>, key: &str) -> (r: Option<Vec<String>>)
    ensures
        seq_opt(r) == text_list_at(fs@, key@),
{
    match find_field(fs, key) {
        Some(Json::Array(items)) => {
            let mut out: Vec<String> = Vec::new();
            let mut i: usize = 0;
            while i < items.len()
                invariant
                    i <= items@.len(),
                    list_of(items@.take(i as int), text_decoder()) == Some(out@),
                    lookup(fs@, key@) == Some(Json::Array(*items)),
                decreases items.len() - i,
            {
                proof {
                    lemma_list_of_step(items@, i as int, text_decoder());
                }
                match read_text(&items[i]) {
                    Some(v) => out.push(v),
                    None => {
                        proof {
                            assert(list_of(items@.take(i + 1), text_decoder()) is None);
                            lemma_list_of_fails(items@, i + 1, text_decoder());
                        }
                        return None;
                    },
                }
                i += 1;
            }
            assert(items@.take(items@.len() as int) =~= items@);
            Some(out)
        },
        _ => None,
    }
}

} // verus!
