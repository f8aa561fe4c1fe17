//! The report document as a tree of plain values, and helpers for reading
//! fields out of its objects.

use vstd::prelude::*;
use vstd::string::StrSliceExecFns;

use crate::error::ShapeError;
use crate::error::ShapeErrorView;
use crate::numbers::spec_parse_i64;
use crate::numbers::parse_i64_range;

verus! {

/// One JSON value, held as plain data the decoders can read.
///
/// The probe tool's report is parsed by an outside JSON parser and handed
/// over in this shape. A number that is not a signed 64-bit integer is kept
/// only as its printed text, under `Float`: no decoder accepts one, but its
/// presence in an ignored field must not disturb decoding.
pub enum Json {
    Null,
    Bool(bool),
    Int(i64),
    Float(String),
    Str(String),
    Arr(Vec<Json>),
    Obj(Vec<(String, Json)>),
}

/// What the outside JSON parser yields on given bytes: `None` where the bytes
/// are not one valid JSON document, otherwise the document as a `Json` tree.
pub uninterp spec fn parsed_doc(bytes: Seq<u8>) -> Option<Json>;

#[verifier::external_type_specification]
#[verifier::external_body]
pub struct ExValue(serde_json::Value);

/// Relies on serde_json::Value: moves each node of a parsed tree into the
/// crate's own `Json`, one variant for one; a number becomes `Int` when it is
/// a signed 64-bit integer and otherwise keeps only its printed text.
#[verifier::external_body]
fn json_from_value(v: serde_json::Value) -> Json {
    match v {
        serde_json::Value::Null => Json::Null,
        serde_json::Value::Bool(b) => Json::Bool(b),
        serde_json::Value::Number(n) => match n.as_i64() {
            Some(i) => Json::Int(i),
            None => Json::Float(n.to_string()),
        },
        serde_json::Value::String(s) => Json::Str(s),
        serde_json::Value::Array(a) => Json::Arr(a.into_iter().map(json_from_value).collect()),
        serde_json::Value::Object(o) => Json::Obj(
            o.into_iter().map(|(k, x)| (k, json_from_value(x))).collect(),
        ),
    }
}

/// Relies on serde_json::from_slice: parses one JSON document from bytes.
/// The parsed tree comes back converted into the crate's own `Json`; bytes
/// that do not parse yield `None`.
#[verifier::external_body]
pub(crate) fn parse_json(bytes: &[u8]) -> (r: Option<Json>)
    ensures
        r == parsed_doc(bytes@),
{
    match serde_json::from_slice::<serde_json::Value>(bytes) {
        Ok(v) => Some(json_from_value(v)),
        Err(_) => None,
    }
}

/// The first value under `key`, if the object holds one.
pub open spec fn spec_lookup(fields: Seq<(String, Json)>, key: Seq<char>) -> Option<Json>
    decreases fields.len(),
{
    if fields.len() == 0 {
        None
    } else if fields[0].0@ == key {
        Some(fields[0].1)
    } else {
        spec_lookup(fields.drop_first(), key)
    }
}

pub fn str_eq(a: &str, b: &str) -> (r: bool)
    ensures
        r == (a@ == b@),
{
    let ao: String = a.to_owned();
    let bo: String = b.to_owned();
    ao == bo
}

pub fn lookup<'a>(fields: &'a Vec<(String, Json)>, key: &str) -> (r: Option<&'a Json>)
    ensures
        match r {
            Some(v) => spec_lookup(fields@, key@) == Some(*v),
            None => spec_lookup(fields@, key@) is None,
        },
{
    let n = fields.len();
    proof {
        assert(fields@.skip(0) =~= fields@);
    }
    for i in 0..n
        invariant
            n == fields@.len(),
            spec_lookup(fields@, key@) == spec_lookup(fields@.skip(i as int), key@),
        decreases n - i,
    {
        proof {
            assert(fields@.skip(i as int).drop_first() =~= fields@.skip(i + 1));
            assert(fields@.skip(i as int)[0] == fields@[i as int]);
        }
        if str_eq(fields[i].0.as_str(), key) {
            return Some(&fields[i].1);
        }
    }
    proof {
        assert(fields@.skip(n as int) =~= Seq::<(String, Json)>::empty());
    }
    None
}

/// The meaning of a field expected to be numeric: the probe tool emits such
/// values both as bare integers and as quoted digit strings, and both shapes
/// must read the same.
pub open spec fn spec_flex_int(j: Json) -> Option<int> {
    match j {
        Json::Int(v) => Some(v as int),
        Json::Str(s) => spec_parse_i64(s@),
        _ => None,
    }
}

pub fn flex_int(j: &Json) -> (r: Option<i64>)
    ensures
        match r {
            Some(v) => spec_flex_int(*j) == Some(v as int),
            None => spec_flex_int(*j) is None,
        },
{
    match j {
        Json::Int(v) => Some(*v),
        Json::Str(s) => {
            let st: &str = s.as_str();
            let n = st.unicode_len();
            let r = parse_i64_range(st, 0, n);
            proof {
                assert(st@.subrange(0, st@.len() as int) =~= st@);
            }
            r
        },
        _ => None,
    }
}

/// A numeric value reads the same under both encodings: the bare integer and
/// the quoted decimal text of the same integer decode to the same value.
pub proof fn lemma_flex_int_dual_encoding(v: i64, s: String)
    requires
        s@ == crate::numbers::int_chars(v as int),
    ensures
        spec_flex_int(Json::Int(v)) == Some(v as int),
        spec_flex_int(Json::Str(s)) == Some(v as int),
        spec_flex_int(Json::Str(s)) == spec_flex_int(Json::Int(v)),
{
    crate::numbers::lemma_parse_int_chars(v as int);
}

/// An optional numeric field: absent or null is `None`; a present value must
/// read as an integer under either encoding, else the field's name is the
/// offending context.
pub open spec fn spec_opt_int_field(fields: Seq<(String, Json)>, key: Seq<char>) -> Result<
    Option<int>,
    ShapeErrorView,
> {
    match spec_lookup(fields, key) {
        None => Ok(None),
        Some(j) => match j {
            Json::Null => Ok(None),
            _ => match spec_flex_int(j) {
                Some(v) => Ok(Some(v)),
                None => Err(ShapeErrorView::WrongType(key)),
            },
        },
    }
}

pub open spec fn opt_i64_view(o: Option<i64>) -> Option<int> {
    match o {
        Some(v) => Some(v as int),
        None => None,
    }
}

pub open spec fn opt_string_view(o: Option<String>) -> Option<Seq<char>> {
    match o {
        Some(s) => Some(s@),
        None => None,
    }
}

pub fn opt_int_field(fields: &Vec<(String, Json)>, key: &str) -> (r: Result<
    Option<i64>,
    ShapeError,
>)
    ensures
        match r {
            Ok(o) => spec_opt_int_field(fields@, key@) == Ok::<_, ShapeErrorView>(opt_i64_view(o)),
            Err(e) => spec_opt_int_field(fields@, key@) == Err::<Option<int>, _>(e@),
        },
{
    match lookup(fields, key) {
        None => Ok(None),
        Some(j) => match j {
            Json::Null => Ok(None),
            _ => match flex_int(j) {
                Some(v) => Ok(Some(v)),
                None => Err(ShapeError::WrongType(key.to_owned())),
            },
        },
    }
}

/// A required numeric field: absent or null is a missing-field error.
pub open spec fn spec_req_int_field(fields: Seq<(String, Json)>, key: Seq<char>) -> Result<
    int,
    ShapeErrorView,
> {
    match spec_opt_int_field(fields, key) {
        Ok(Some(v)) => Ok(v),
        Ok(None) => Err(ShapeErrorView::MissingField(key)),
        Err(e) => Err(e),
    }
}

pub fn req_int_field(fields: &Vec<(String, Json)>, key: &str) -> (r: Result<i64, ShapeError>)
    ensures
        match r {
            Ok(v) => spec_req_int_field(fields@, key@) == Ok::<_, ShapeErrorView>(v as int),
            Err(e) => spec_req_int_field(fields@, key@) == Err::<int, _>(e@),
        },
{
    match opt_int_field(fields, key) {
        Ok(Some(v)) => Ok(v),
        Ok(None) => Err(ShapeError::MissingField(key.to_owned())),
        Err(e) => Err(e),
    }
}

/// Decoding a whole sequence of records: every element must decode, and the
/// first failure is the failure of the whole. No partial sequence survives.
pub open spec fn decode_seq<A, T>(
    s: Seq<A>,
    f: spec_fn(A) -> Result<T, ShapeErrorView>,
) -> Result<Seq<T>, ShapeErrorView>
    decreases s.len(),
{
    if s.len() == 0 {
        Ok(Seq::empty())
    } else {
        match decode_seq(s.drop_last(), f) {
            Err(e) => Err(e),
            Ok(r) => match f(s.last()) {
                Ok(t) => Ok(r.push(t)),
                Err(e) => Err(e),
            },
        }
    }
}

/// A failed prefix decides the whole sequence: whatever follows a failure,
/// the result is that failure.
pub proof fn lemma_decode_seq_err<A, T>(
    s: Seq<A>,
    f: spec_fn(A) -> Result<T, ShapeErrorView>,
    i: int,
)
    requires
        0 <= i <= s.len(),
        decode_seq(s.take(i), f) is Err,
    ensures
        decode_seq(s, f) == decode_seq(s.take(i), f),
    decreases s.len() - i,
{
    if i < s.len() {
        assert(s.take(i + 1).drop_last() =~= s.take(i));
        lemma_decode_seq_err(s, f, i + 1);
    } else {
        assert(s.take(i) =~= s);
    }
}

/// All or nothing: a sequence of records decodes exactly when every one of
/// its records decodes; one malformed record fails the whole sequence.
pub proof fn lemma_decode_seq_all_ok<A, T>(s: Seq<A>, f: spec_fn(A) -> Result<T, ShapeErrorView>)
    ensures
        decode_seq(s, f) is Ok <==> (forall|i: int| 0 <= i < s.len() ==> (#[trigger] f(s[i])) is Ok),
        decode_seq(s, f) matches Ok(r) ==> r.len() == s.len() && (forall|i: int|
            0 <= i < s.len() ==> #[trigger] f(s[i]) == Ok::<T, ShapeErrorView>(r[i])),
    decreases s.len(),
{
    if s.len() > 0 {
        let d = s.drop_last();
        lemma_decode_seq_all_ok(d, f);
        assert(forall|i: int| 0 <= i < d.len() ==> #[trigger] d[i] == s[i]);
        assert(s.last() == s[s.len() - 1]);
        if forall|i: int| 0 <= i < s.len() ==> (#[trigger] f(s[i])) is Ok {
            assert(forall|i: int| 0 <= i < d.len() ==> (#[trigger] f(d[i])) is Ok);
            assert(f(s[s.len() - 1]) is Ok);
            assert(decode_seq(s, f) is Ok);
        }
        if decode_seq(s, f) is Ok {
            let r = decode_seq(s, f)->Ok_0;
            let prev = decode_seq(d, f)->Ok_0;
            let t = f(s.last())->Ok_0;
            assert(r == prev.push(t));
            assert forall|i: int| 0 <= i < s.len() implies #[trigger] f(s[i]) == Ok::<
                T,
                ShapeErrorView,
            >(r[i]) by {
                if i < s.len() - 1 {
                    assert(f(d[i]) == Ok::<T, ShapeErrorView>(prev[i]));
                    assert(r[i] == prev[i]);
                } else {
                    assert(r[i] == t);
                }
            }
        }
    }
}

/// An optional text field: absent or null is `None`; any other non-string
/// shape is the wrong type.
pub open spec fn spec_opt_str_field(fields: Seq<(String, Json)>, key: Seq<char>) -> Result<
    Option<Seq<char>>,
    ShapeErrorView,
> {
    match spec_lookup(fields, key) {
        None => Ok(None),
        Some(j) => match j {
            Json::Null => Ok(None),
            Json::Str(s) => Ok(Some(s@)),
            _ => Err(ShapeErrorView::WrongType(key)),
        },
    }
}

pub fn opt_str_field(fields: &Vec<(String, Json)>, key: &str) -> (r: Result<
    Option<String>,
    ShapeError,
>)
    ensures
        match r {
            Ok(o) => spec_opt_str_field(fields@, key@) == Ok::<_, ShapeErrorView>(
                opt_string_view(o),
            ),
            Err(e) => spec_opt_str_field(fields@, key@) == Err::<Option<Seq<char>>, _>(e@),
        },
{
    match lookup(fields, key) {
        None => Ok(None),
        Some(j) => match j {
            Json::Null => Ok(None),
            Json::Str(s) => Ok(Some(s.clone())),
            _ => Err(ShapeError::WrongType(key.to_owned())),
        },
    }
}

} // verus!
