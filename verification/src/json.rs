//! A concrete JSON document tree, and the trusted bridge to `serde_json`.
//!
//! The wire protocol delivers one JSON object per push.  `serde_json` does
//! the raw parsing; everything after that — validating the document against
//! the snapshot schema — is verified code working on the [`JsonValue`] tree.

use vstd::prelude::*;

verus! {

/// The mathematical value of a JSON document: what a [`JsonValue`] denotes.
pub ghost enum JVal {
    /// the JSON literal `null`
    Null,
    /// a JSON boolean
    Bool(bool),
    /// an integer number in `0 ..= u64::MAX`
    UInt(u64),
    /// a negative integer number down to `i64::MIN`
    Int(i64),
    /// a number that fits neither `u64` nor `i64` (the schema rejects these)
    NonInt,
    /// a JSON string
    Str(Seq<char>),
    /// a JSON array
    Arr(Seq<JVal>),
    /// a JSON object: its fields in document order
    Obj(Seq<(Seq<char>, JVal)>),
}

/// One JSON value, as handed over by the parser.
///
/// Numbers are kept only as far as the snapshot schema can read them: an
/// integer fitting `u64`, an integer fitting `i64`, or [`JsonValue::NonInt`]
/// for any other number, which every schema position rejects.
pub enum JsonValue {
    /// the JSON literal `null`
    Null,
    /// a JSON boolean
    Bool(bool),
    /// an integer number in `0 ..= u64::MAX`
    UInt(u64),
    /// a negative integer number down to `i64::MIN`
    Int(i64),
    /// a number that fits neither `u64` nor `i64`
    NonInt,
    /// a JSON string
    Str(String),
    /// a JSON array
    Arr(Vec<JsonValue>),
    /// a JSON object: its fields in document order
    Obj(Vec<(String, JsonValue)>),
}

/// The denotation of a [`JsonValue`]: string contents as `Seq<char>`,
/// containers as `Seq`.
pub open spec fn jval_of(v: &JsonValue) -> JVal
    decreases v,
{
    match v {
        JsonValue::Null => JVal::Null,
        JsonValue::Bool(b) => JVal::Bool(*b),
        JsonValue::UInt(n) => JVal::UInt(*n),
        JsonValue::Int(n) => JVal::Int(*n),
        JsonValue::NonInt => JVal::NonInt,
        JsonValue::Str(s) => JVal::Str(s@),
        JsonValue::Arr(items) => JVal::Arr(jvals_of(items@)),
        JsonValue::Obj(fields) => JVal::Obj(jfields_of(fields@)),
    }
}

/// The denotations of the elements of a JSON array, in order.
pub open spec fn jvals_of(items: Seq<JsonValue>) -> Seq<JVal>
    decreases items,
    via lemma_jvals_of_decreases
{
    if items.len() == 0 {
        Seq::empty()
    } else {
        seq![jval_of(&items[0])] + jvals_of(items.drop_first())
    }
}

#[via_fn]
proof fn lemma_jvals_of_decreases(items: Seq<JsonValue>) {
    if items.len() > 0 {
        vstd::seq::axiom_seq_len_decreases(items, items.drop_first());
    }
}

/// The denotations of the fields of a JSON object, in document order.
pub open spec fn jfields_of(fields: Seq<(String, JsonValue)>) -> Seq<(Seq<char>, JVal)>
    decreases fields,
    via lemma_jfields_of_decreases
{
    if fields.len() == 0 {
        Seq::empty()
    } else {
        seq![(fields[0].0@, jval_of(&fields[0].1))] + jfields_of(fields.drop_first())
    }
}

#[via_fn]
proof fn lemma_jfields_of_decreases(fields: Seq<(String, JsonValue)>) {
    if fields.len() > 0 {
        vstd::seq::axiom_seq_len_decreases(fields, fields.drop_first());
    }
}

impl View for JsonValue {
    type V = JVal;

    open spec fn view(&self) -> JVal {
        jval_of(self)
    }
}

/// `jfields_of` is the field-wise denotation.
pub proof fn lemma_jfields_of_index(fields: Seq<(String, JsonValue)>)
    ensures
        jfields_of(fields).len() == fields.len(),
        forall|i: int| 0 <= i < fields.len() ==> jfields_of(fields)[i] == (
            fields[i].0@,
            jval_of(&fields[i].1),
        ),
    decreases fields.len(),
{
    if fields.len() > 0 {
        lemma_jfields_of_index(fields.drop_first());
    }
}

/// The value of the first field named `key`, if any: JSON objects are read
/// first-occurrence-wins.
pub open spec fn obj_get(fields: Seq<(Seq<char>, JVal)>, key: Seq<char>) -> Option<JVal>
    decreases fields.len(),
{
    if fields.len() == 0 {
        None
    } else if fields[0].0 == key {
        Some(fields[0].1)
    } else {
        obj_get(fields.drop_first(), key)
    }
}

/// If no field before position `i` is named `key` and the field at `i` is,
/// then the lookup lands on position `i`.
pub proof fn lemma_obj_get_at(fields: Seq<(Seq<char>, JVal)>, key: Seq<char>, i: int)
    requires
        0 <= i < fields.len(),
        forall|j: int| 0 <= j < i ==> fields[j].0 != key,
        fields[i].0 == key,
    ensures
        obj_get(fields, key) == Some(fields[i].1),
    decreases i,
{
    if i > 0 {
        lemma_obj_get_at(fields.drop_first(), key, i - 1);
    }
}

/// If no field at all is named `key`, the lookup fails.
pub proof fn lemma_obj_get_none(fields: Seq<(Seq<char>, JVal)>, key: Seq<char>)
    requires
        forall|j: int| 0 <= j < fields.len() ==> fields[j].0 != key,
    ensures
        obj_get(fields, key) is None,
    decreases fields.len(),
{
    if fields.len() > 0 {
        lemma_obj_get_none(fields.drop_first(), key);
    }
}

/// String comparison with the comparison's meaning pinned to the views.
pub fn str_eq(a: &str, b: &str) -> (r: bool)
    ensures
        r == (a@ == b@),
{
    let sa = String::from_str(a);
    let sb = String::from_str(b);
    sa == sb
}

/// Looks up the first field named `key` in a JSON object's field list.
pub fn obj_lookup<'a>(fields: &'a Vec<(String, JsonValue)>, key: &str) -> (r: Option<
    &'a JsonValue,
>)
    ensures
        match r {
            Some(v) => obj_get(jfields_of(fields@), key@) == Some(jval_of(v)),
            None => obj_get(jfields_of(fields@), key@) is None,
        },
{
    proof {
        lemma_jfields_of_index(fields@);
    }
    let n = fields.len();
    let mut i: usize = 0;
    while i < n
        invariant
            n == fields@.len(),
            0 <= i <= n,
            forall|j: int| 0 <= j < i ==> fields@[j].0@ != key@,
            jfields_of(fields@).len() == fields@.len(),
            forall|j: int| 0 <= j < fields@.len() ==> jfields_of(fields@)[j] == (
                fields@[j].0@,
                jval_of(&fields@[j].1),
            ),
        decreases n - i,
    {
        if str_eq(fields[i].0.as_str(), key) {
            proof {
                lemma_obj_get_at(jfields_of(fields@), key@, i as int);
            }
            return Some(&fields[i].1);
        }
        i = i + 1;
    }
    proof {
        lemma_obj_get_none(jfields_of(fields@), key@);
    }
    None
}

/// The denotation of an optional field-lookup result.
pub open spec fn oview(o: Option<&JsonValue>) -> Option<JVal> {
    match o {
        Some(v) => Some(jval_of(v)),
        None => None,
    }
}

/// A required unsigned-integer field.
pub open spec fn spec_field_u64(o: Option<JVal>) -> Option<u64> {
    match o {
        Some(JVal::UInt(n)) => Some(n),
        _ => None,
    }
}

/// Reads a required unsigned-integer field.
pub fn field_u64(o: Option<&JsonValue>) -> (r: Option<u64>)
    ensures
        r == spec_field_u64(oview(o)),
{
    match o {
        Some(JsonValue::UInt(n)) => Some(*n),
        _ => None,
    }
}

/// A required signed-integer field: any integer that fits `i64`.
pub open spec fn spec_field_i64(o: Option<JVal>) -> Option<i64> {
    match o {
        Some(JVal::UInt(n)) => if n <= i64::MAX as u64 {
            Some(n as i64)
        } else {
            None
        },
        Some(JVal::Int(i)) => Some(i),
        _ => None,
    }
}

/// Reads a required signed-integer field.
pub fn field_i64(o: Option<&JsonValue>) -> (r: Option<i64>)
    ensures
        r == spec_field_i64(oview(o)),
{
    match o {
        Some(JsonValue::UInt(n)) => if *n <= i64::MAX as u64 {
            Some(*n as i64)
        } else {
            None
        },
        Some(JsonValue::Int(i)) => Some(*i),
        _ => None,
    }
}

/// A required boolean field.
pub open spec fn spec_field_bool(o: Option<JVal>) -> Option<bool> {
    match o {
        Some(JVal::Bool(b)) => Some(b),
        _ => None,
    }
}

/// Reads a required boolean field.
pub fn field_bool(o: Option<&JsonValue>) -> (r: Option<bool>)
    ensures
        r == spec_field_bool(oview(o)),
{
    match o {
        Some(JsonValue::Bool(b)) => Some(*b),
        _ => None,
    }
}

/// A required string field.
pub open spec fn spec_field_string(o: Option<JVal>) -> Option<Seq<char>> {
    match o {
        Some(JVal::Str(s)) => Some(s),
        _ => None,
    }
}

/// Reads a required string field.
pub fn field_string(o: Option<&JsonValue>) -> (r: Option<String>)
    ensures
        match r {
            Some(s) => spec_field_string(oview(o)) == Some(s@),
            None => spec_field_string(oview(o)) is None,
        },
{
    match o {
        Some(JsonValue::Str(s)) => Some(s.clone()),
        _ => None,
    }
}

/// An optional unsigned-integer field: absent and `null` both mean "not
/// given"; anything else but an unsigned integer is a type mismatch.
pub open spec fn spec_opt_u64(o: Option<JVal>) -> Option<Option<u64>> {
    match o {
        None => Some(None),
        Some(JVal::Null) => Some(None),
        Some(JVal::UInt(n)) => Some(Some(n)),
        _ => None,
    }
}

/// Reads an optional unsigned-integer field.
pub fn opt_u64(o: Option<&JsonValue>) -> (r: Option<Option<u64>>)
    ensures
        r == spec_opt_u64(oview(o)),
{
    match o {
        None => Some(None),
        Some(JsonValue::Null) => Some(None),
        Some(JsonValue::UInt(n)) => Some(Some(*n)),
        _ => None,
    }
}

/// An optional boolean field.
pub open spec fn spec_opt_bool(o: Option<JVal>) -> Option<Option<bool>> {
    match o {
        None => Some(None),
        Some(JVal::Null) => Some(None),
        Some(JVal::Bool(b)) => Some(Some(b)),
        _ => None,
    }
}

/// Reads an optional boolean field.
pub fn opt_bool(o: Option<&JsonValue>) -> (r: Option<Option<bool>>)
    ensures
        r == spec_opt_bool(oview(o)),
{
    match o {
        None => Some(None),
        Some(JsonValue::Null) => Some(None),
        Some(JsonValue::Bool(b)) => Some(Some(*b)),
        _ => None,
    }
}

/// An optional string field.
pub open spec fn spec_opt_string(o: Option<JVal>) -> Option<Option<Seq<char>>> {
    match o {
        None => Some(None),
        Some(JVal::Null) => Some(None),
        Some(JVal::Str(s)) => Some(Some(s)),
        _ => None,
    }
}

/// Reads an optional string field.
pub fn opt_string(o: Option<&JsonValue>) -> (r: Option<Option<String>>)
    ensures
        match r {
            Some(Some(s)) => spec_opt_string(oview(o)) == Some(Some(s@)),
            Some(None) => spec_opt_string(oview(o)) == Some(None::<Seq<char>>),
            None => spec_opt_string(oview(o)) is None,
        },
{
    match o {
        None => Some(None),
        Some(JsonValue::Null) => Some(None),
        Some(JsonValue::Str(s)) => Some(Some(s.clone())),
        _ => None,
    }
}

/// The denotation of a list of owned string pairs.
pub open spec fn str_pairs_view(s: Seq<(String, String)>) -> Seq<(Seq<char>, Seq<char>)> {
    Seq::new(s.len(), |i: int| (s[i].0@, s[i].1@))
}

/// An object all of whose values are strings, kept in document order.
pub open spec fn spec_str_map(fields: Seq<(Seq<char>, JVal)>) -> Option<
    Seq<(Seq<char>, Seq<char>)>,
>
    decreases fields.len(),
{
    if fields.len() == 0 {
        Some(Seq::empty())
    } else {
        match (spec_str_map(fields.drop_last()), fields.last().1) {
            (Some(rest), JVal::Str(s)) => Some(rest.push((fields.last().0, s))),
            _ => None,
        }
    }
}

/// Once a prefix fails to read as a string map, every extension fails.
proof fn lemma_str_map_none_extends(fields: Seq<(Seq<char>, JVal)>, i: int, j: int)
    requires
        0 <= i <= j <= fields.len(),
        spec_str_map(fields.take(i)) is None,
    ensures
        spec_str_map(fields.take(j)) is None,
    decreases j - i,
{
    if i < j {
        lemma_str_map_none_extends(fields, i, j - 1);
        assert(fields.take(j).drop_last() =~= fields.take(j - 1));
    }
}

/// Reads an object all of whose values are strings, e.g. the auth block.
pub fn decode_str_map(fields: &Vec<(String, JsonValue)>) -> (r: Option<Vec<(String, String)>>)
    ensures
        match r {
            Some(m) => spec_str_map(jfields_of(fields@)) == Some(str_pairs_view(m@)),
            None => spec_str_map(jfields_of(fields@)) is None,
        },
{
    proof {
        lemma_jfields_of_index(fields@);
    }
    let ghost gf = jfields_of(fields@);
    let n = fields.len();
    let mut out: Vec<(String, String)> = Vec::new();
    let mut i: usize = 0;
    while i < n
        invariant
            0 <= i <= n,
            n == fields@.len(),
            gf == jfields_of(fields@),
            gf.len() == n,
            forall|j: int| 0 <= j < n ==> gf[j] == (fields@[j].0@, jval_of(&fields@[j].1)),
            spec_str_map(gf.take(i as int)) == Some(str_pairs_view(out@)),
        decreases n - i,
    {
        match &fields[i].1 {
            JsonValue::Str(s) => {
                let pair = (fields[i].0.clone(), s.clone());
                out.push(pair);
                proof {
                    assert(gf.take(i + 1).drop_last() =~= gf.take(i as int));
                    assert(str_pairs_view(out@) =~= spec_str_map(gf.take(i as int)).unwrap().push(
                        (fields@[i as int].0@, s@),
                    ));
                }
            },
            _ => {
                proof {
                    assert(gf.take(i + 1).drop_last() =~= gf.take(i as int));
                    assert(spec_str_map(gf.take(i + 1)) is None);
                    lemma_str_map_none_extends(gf, i + 1, n as int);
                    assert(gf.take(n as int) =~= gf);
                }
                return None;
            },
        }
        i = i + 1;
    }
    proof {
        assert(gf.take(n as int) =~= gf);
    }
    Some(out)
}

/// The denotation of a list of round-win pairs.
pub open spec fn u64_pairs_view(s: Seq<(u64, String)>) -> Seq<(u64, Seq<char>)> {
    Seq::new(s.len(), |i: int| (s[i].0, s[i].1@))
}

/// An object whose field names are decimal numbers and whose values are
/// strings, kept in document order.
pub open spec fn spec_u64_key_map(fields: Seq<(Seq<char>, JVal)>) -> Option<Seq<(u64, Seq<char>)>>
    decreases fields.len(),
{
    if fields.len() == 0 {
        Some(Seq::empty())
    } else {
        match (
            spec_u64_key_map(fields.drop_last()),
            crate::text::spec_parse_u64(fields.last().0),
            fields.last().1,
        ) {
            (Some(rest), Some(k), JVal::Str(s)) => Some(rest.push((k, s))),
            _ => None,
        }
    }
}

/// Once a prefix fails to read as a number-keyed map, every extension fails.
proof fn lemma_u64_key_map_none_extends(fields: Seq<(Seq<char>, JVal)>, i: int, j: int)
    requires
        0 <= i <= j <= fields.len(),
        spec_u64_key_map(fields.take(i)) is None,
    ensures
        spec_u64_key_map(fields.take(j)) is None,
    decreases j - i,
{
    if i < j {
        lemma_u64_key_map_none_extends(fields, i, j - 1);
        assert(fields.take(j).drop_last() =~= fields.take(j - 1));
    }
}

/// Reads an object whose field names are decimal round numbers and whose
/// values are strings, e.g. the round-wins block.
pub fn decode_u64_key_map(fields: &Vec<(String, JsonValue)>) -> (r: Option<Vec<(u64, String)>>)
    ensures
        match r {
            Some(m) => spec_u64_key_map(jfields_of(fields@)) == Some(u64_pairs_view(m@)),
            None => spec_u64_key_map(jfields_of(fields@)) is None,
        },
{
    proof {
        lemma_jfields_of_index(fields@);
    }
    let ghost gf = jfields_of(fields@);
    let n = fields.len();
    let mut out: Vec<(u64, String)> = Vec::new();
    let mut i: usize = 0;
    while i < n
        invariant
            0 <= i <= n,
            n == fields@.len(),
            gf == jfields_of(fields@),
            gf.len() == n,
            forall|j: int| 0 <= j < n ==> gf[j] == (fields@[j].0@, jval_of(&fields@[j].1)),
            spec_u64_key_map(gf.take(i as int)) == Some(u64_pairs_view(out@)),
        decreases n - i,
    {
        let key = crate::text::parse_u64(fields[i].0.as_str());
        match (key, &fields[i].1) {
            (Some(k), JsonValue::Str(s)) => {
                let pair = (k, s.clone());
                out.push(pair);
                proof {
                    assert(gf.take(i + 1).drop_last() =~= gf.take(i as int));
                    assert(u64_pairs_view(out@) =~= spec_u64_key_map(gf.take(i as int)).unwrap()
                        .push((k, s@)));
                }
            },
            _ => {
                proof {
                    assert(gf.take(i + 1).drop_last() =~= gf.take(i as int));
                    assert(spec_u64_key_map(gf.take(i + 1)) is None);
                    lemma_u64_key_map_none_extends(gf, i + 1, n as int);
                    assert(gf.take(n as int) =~= gf);
                }
                return None;
            },
        }
        i = i + 1;
    }
    proof {
        assert(gf.take(n as int) =~= gf);
    }
    Some(out)
}

/// The object fields that encode a list of string pairs.
pub open spec fn spec_encode_str_pairs(s: Seq<(Seq<char>, Seq<char>)>) -> Seq<(Seq<char>, JVal)> {
    Seq::new(s.len(), |i: int| (s[i].0, JVal::Str(s[i].1)))
}

/// The object fields that encode a list of round-win pairs, keys written in
/// decimal.
pub open spec fn spec_encode_u64_pairs(s: Seq<(u64, Seq<char>)>) -> Seq<(Seq<char>, JVal)> {
    Seq::new(s.len(), |i: int| (crate::text::dec_digits(s[i].0 as nat), JVal::Str(s[i].1)))
}

/// Encoded string pairs always read back as the same pairs.
pub proof fn lemma_str_map_codec(s: Seq<(Seq<char>, Seq<char>)>)
    ensures
        spec_str_map(spec_encode_str_pairs(s)) == Some(s),
    decreases s.len(),
{
    if s.len() == 0 {
        assert(spec_encode_str_pairs(s) =~= Seq::<(Seq<char>, JVal)>::empty());
        assert(spec_str_map(spec_encode_str_pairs(s)) == Some(Seq::<(Seq<char>, Seq<char>)>::empty()));
        assert(s =~= Seq::<(Seq<char>, Seq<char>)>::empty());
    } else {
        lemma_str_map_codec(s.drop_last());
        assert(spec_encode_str_pairs(s).drop_last() =~= spec_encode_str_pairs(s.drop_last()));
        assert(spec_encode_str_pairs(s).last() == (s.last().0, JVal::Str(s.last().1)));
        assert(s.drop_last().push(s.last()) =~= s);
    }
}

/// Encoded round-win pairs always read back as the same pairs.
pub proof fn lemma_u64_map_codec(s: Seq<(u64, Seq<char>)>)
    ensures
        spec_u64_key_map(spec_encode_u64_pairs(s)) == Some(s),
    decreases s.len(),
{
    if s.len() == 0 {
        assert(spec_encode_u64_pairs(s) =~= Seq::<(Seq<char>, JVal)>::empty());
        assert(spec_u64_key_map(spec_encode_u64_pairs(s)) == Some(Seq::<(u64, Seq<char>)>::empty()));
        assert(s =~= Seq::<(u64, Seq<char>)>::empty());
    } else {
        lemma_u64_map_codec(s.drop_last());
        assert(spec_encode_u64_pairs(s).drop_last() =~= spec_encode_u64_pairs(s.drop_last()));
        assert(spec_encode_u64_pairs(s).last() == (
            crate::text::dec_digits(s.last().0 as nat),
            JVal::Str(s.last().1),
        ));
        crate::text::lemma_parse_of_dec(s.last().0);
        assert(s.drop_last().push(s.last()) =~= s);
    }
}

/// Encodes a list of string pairs as object fields.
pub fn encode_str_map(m: &Vec<(String, String)>) -> (out: Vec<(String, JsonValue)>)
    ensures
        jfields_of(out@) == spec_encode_str_pairs(str_pairs_view(m@)),
{
    let n = m.len();
    let mut out: Vec<(String, JsonValue)> = Vec::new();
    let mut i: usize = 0;
    while i < n
        invariant
            0 <= i <= n,
            n == m@.len(),
            out@.len() == i,
            forall|j: int| 0 <= j < i ==> out@[j].0@ == m@[j].0@ && out@[j].1 == (
                JsonValue::Str(m@[j].1)
            ),
        decreases n - i,
    {
        let pair = (m[i].0.clone(), JsonValue::Str(m[i].1.clone()));
        out.push(pair);
        i = i + 1;
    }
    proof {
        lemma_jfields_of_index(out@);
        assert(jfields_of(out@) =~= spec_encode_str_pairs(str_pairs_view(m@)));
    }
    out
}

/// Encodes a list of round-win pairs as object fields, keys in decimal.
pub fn encode_u64_key_map(m: &Vec<(u64, String)>) -> (out: Vec<(String, JsonValue)>)
    ensures
        jfields_of(out@) == spec_encode_u64_pairs(u64_pairs_view(m@)),
{
    let n = m.len();
    let mut out: Vec<(String, JsonValue)> = Vec::new();
    let mut i: usize = 0;
    while i < n
        invariant
            0 <= i <= n,
            n == m@.len(),
            out@.len() == i,
            forall|j: int| 0 <= j < i ==> out@[j].0@ == crate::text::dec_digits(m@[j].0 as nat)
                && out@[j].1 == (JsonValue::Str(m@[j].1)),
        decreases n - i,
    {
        let pair = (crate::text::u64_to_dec(m[i].0), JsonValue::Str(m[i].1.clone()));
        out.push(pair);
        i = i + 1;
    }
    proof {
        lemma_jfields_of_index(out@);
        assert(jfields_of(out@) =~= spec_encode_u64_pairs(u64_pairs_view(m@)));
    }
    out
}

/// `serde_json`'s dynamic JSON value, declared so that the conversion
/// functions below can take and return it.
#[verifier::external_type_specification]
#[verifier::external_body]
pub struct ExSerdeValue(serde_json::Value);

/// What one JSON document in `bytes` denotes, or `None` when `bytes` is not
/// exactly one well-formed JSON document.  The result depends on the bytes
/// alone; it is given meaning by the contract of [`parse_json_bytes`].
pub uninterp spec fn json_parse(bytes: Seq<u8>) -> Option<JVal>;

/// Relies on `serde_json::Value`'s variants and on `Number::as_u64` /
/// `Number::as_i64`: rebuilds the parsed document as a [`JsonValue`],
/// variant by variant, keeping integers and folding every other number to
/// [`JsonValue::NonInt`].
#[verifier::external_body]
fn convert_json(v: serde_json::Value) -> JsonValue {
    match v {
        serde_json::Value::Null => JsonValue::Null,
        serde_json::Value::Bool(b) => JsonValue::Bool(b),
        serde_json::Value::Number(n) => match (n.as_u64(), n.as_i64()) {
            (Some(u), _) => JsonValue::UInt(u),
            (None, Some(i)) => JsonValue::Int(i),
            (None, None) => JsonValue::NonInt,
        },
        serde_json::Value::String(s) => JsonValue::Str(s),
        serde_json::Value::Array(a) => JsonValue::Arr(a.into_iter().map(convert_json).collect()),
        serde_json::Value::Object(m) => JsonValue::Obj(
            m.into_iter().map(|(k, x)| (k, convert_json(x))).collect(),
        ),
    }
}

/// Relies on `serde_json::from_slice::<serde_json::Value>`: parses `bytes`
/// as one JSON document, returning `None` on malformed input.  The parse
/// result is a function of the bytes alone, so the contract names it through
/// [`json_parse`].
#[verifier::external_body]
pub(crate) fn parse_json_bytes(bytes: &[u8]) -> (r: Option<JsonValue>)
    ensures
        json_parse(bytes@) == match r {
            Some(v) => Some(jval_of(&v)),
            None => None::<JVal>,
        },
{
    match serde_json::from_slice::<serde_json::Value>(bytes) {
        Ok(v) => Some(convert_json(v)),
        Err(_) => None,
    }
}

/// Relies on `serde_json::Value`'s constructors and `Number::from`: rebuilds
/// a [`JsonValue`] as a `serde_json` value, variant by variant.  The library
/// itself never constructs [`JsonValue::NonInt`]; that variant is rendered
/// as `null`.
#[verifier::external_body]
fn to_serde_value(v: &JsonValue) -> serde_json::Value {
    match v {
        JsonValue::Null => serde_json::Value::Null,
        JsonValue::Bool(b) => serde_json::Value::Bool(*b),
        JsonValue::UInt(n) => serde_json::Value::Number(serde_json::Number::from(*n)),
        JsonValue::Int(n) => serde_json::Value::Number(serde_json::Number::from(*n)),
        JsonValue::NonInt => serde_json::Value::Null,
        JsonValue::Str(s) => serde_json::Value::String(s.clone()),
        JsonValue::Arr(items) => serde_json::Value::Array(items.iter().map(to_serde_value).collect()),
        JsonValue::Obj(fields) => serde_json::Value::Object(
            fields.iter().map(|(k, x)| (k.clone(), to_serde_value(x))).collect(),
        ),
    }
}

/// The JSON text that `serde_json` renders for a value: a function of the
/// value alone.  It is given meaning by the contract of [`json_to_string`].
pub uninterp spec fn json_text(v: JVal) -> Seq<char>;

/// Relies on `serde_json::to_string`: renders a JSON value as JSON text.
/// The text depends on the value alone, so the contract names it through
/// [`json_text`].
#[verifier::external_body]
pub(crate) fn json_to_string(v: &JsonValue) -> (r: String)
    ensures
        r@ == json_text(jval_of(v)),
{
    serde_json::to_string(&to_serde_value(v)).unwrap_or(String::new())
}

} // verus!
