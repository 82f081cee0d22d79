//! The untyped JSON documents the endpoint answers with, modeled as a
//! tagged union, together with the trusted boundary to `serde_json`,
//! which does the actual parsing.
//!
//! Exec code works on [`JsonValue`]; specifications speak of its
//! mathematical model [`Jv`], in which strings are `Seq<char>` and
//! arrays are `Seq<Jv>`.  Numbers and objects are carried as the opaque
//! `serde_json` values they came from: the decoding logic never looks
//! inside a number except through the named results below, and never
//! looks inside an object at all.

use vstd::prelude::*;

verus! {

#[verifier::external_type_specification]
#[verifier::external_body]
pub struct ExValue(serde_json::Value);

#[verifier::external_type_specification]
#[verifier::external_body]
pub struct ExNumber(serde_json::Number);

#[verifier::external_type_specification]
#[verifier::external_body]
#[verifier::reject_recursive_types(K)]
#[verifier::reject_recursive_types(V)]
pub struct ExJsonMap<K, V>(serde_json::Map<K, V>);

/// One parsed JSON value, as a tagged union.
///
/// `Number` keeps the `serde_json` number it was parsed from; `Object`
/// keeps the parsed object.  Both are opaque here: the positional layout
/// this crate decodes only ever reads strings, numbers and arrays.
#[derive(Debug, PartialEq)]
pub enum JsonValue {
    Null,
    Bool(bool),
    Number(serde_json::Number),
    String(String),
    Array(Vec<JsonValue>),
    Object(serde_json::Map<String, serde_json::Value>),
}

/// The mathematical model of a [`JsonValue`].
pub enum Jv {
    Null,
    Bool(bool),
    Num(serde_json::Number),
    Str(Seq<char>),
    Arr(Seq<Jv>),
    Obj(serde_json::Map<String, serde_json::Value>),
}

pub open spec fn jv_of(v: JsonValue) -> Jv
    decreases v,
{
    match v {
        JsonValue::Null => Jv::Null,
        JsonValue::Bool(b) => Jv::Bool(b),
        JsonValue::Number(n) => Jv::Num(n),
        JsonValue::String(s) => Jv::Str(s@),
        JsonValue::Array(a) => Jv::Arr(jv_of_seq(a@)),
        JsonValue::Object(m) => Jv::Obj(m),
    }
}

pub open spec fn jv_of_seq(s: Seq<JsonValue>) -> Seq<Jv>
    decreases s,
{
    if s.len() == 0 {
        Seq::empty()
    } else {
        seq![jv_of(s[0])] + jv_of_seq(s.subrange(1, s.len() as int))
    }
}

/// The model of a sequence of values is the sequence of their models.
pub proof fn lemma_jv_of_seq(s: Seq<JsonValue>)
    ensures
        jv_of_seq(s).len() == s.len(),
        forall|i: int| 0 <= i < s.len() ==> jv_of_seq(s)[i] == jv_of(s[i]),
    decreases s,
{
    if s.len() != 0 {
        lemma_jv_of_seq(s.subrange(1, s.len() as int));
        assert forall|i: int| 0 <= i < s.len() implies jv_of_seq(s)[i] == jv_of(s[i]) by {
            if i >= 1 {
                assert(s.subrange(1, s.len() as int)[i - 1] == s[i]);
            }
        }
    }
}

impl View for JsonValue {
    type V = Jv;

    open spec fn view(&self) -> Jv {
        jv_of(*self)
    }
}

/// What `serde_json::from_slice` makes of these bytes: the model of the
/// parsed document, or, when they are not one JSON document, the parse
/// error rendered through its `Display`.  Parsing is a function of the
/// bytes alone.
pub uninterp spec fn json_doc(bytes: Seq<u8>) -> Result<Jv, Seq<char>>;

/// The model of a parsed `serde_json::Value`: the same tree, with
/// strings as character sequences and numbers and objects carried as
/// they are.
pub uninterp spec fn value_model(v: serde_json::Value) -> Jv;

/// What `serde_json::Number::as_u64` returns for this number: its value
/// as a `u64` when the number is an integer in range, `None` otherwise.
pub uninterp spec fn num_as_u64(n: serde_json::Number) -> Option<u64>;

/// The decimal rendering of a `serde_json::Number`, as its `Display`
/// writes it.
pub uninterp spec fn num_str(n: serde_json::Number) -> Seq<char>;

/// Relies on `serde_json::from_slice`: parses the bytes as one JSON
/// document, a function of the bytes alone; a failure is handed back as
/// the parse error's rendering.
#[verifier::external_body]
pub(crate) fn parse_value(bytes: &[u8]) -> (r: Result<serde_json::Value, String>)
    ensures
        match r {
            Ok(v) => json_doc(bytes@) == Ok::<Jv, Seq<char>>(value_model(v)),
            Err(m) => json_doc(bytes@) == Err::<Jv, Seq<char>>(m@),
        },
{
    match serde_json::from_slice::<serde_json::Value>(bytes) {
        Ok(v) => Ok(v),
        Err(e) => Err(e.to_string()),
    }
}

/// Relies on the variants of `serde_json::Value`: rebuilds the parsed
/// document as a [`JsonValue`], variant by variant, keeping numbers and
/// objects as they came.
#[verifier::external_body]
pub(crate) fn to_json_value(v: serde_json::Value) -> (r: JsonValue)
    ensures
        r@ == value_model(v),
{
    match v {
        serde_json::Value::Null => JsonValue::Null,
        serde_json::Value::Bool(b) => JsonValue::Bool(b),
        serde_json::Value::Number(n) => JsonValue::Number(n),
        serde_json::Value::String(s) => JsonValue::String(s),
        serde_json::Value::Array(a) => JsonValue::Array(a.into_iter().map(to_json_value).collect()),
        serde_json::Value::Object(m) => JsonValue::Object(m),
    }
}

/// Relies on `serde_json::Number::as_u64`: the number as a `u64` when it
/// is an integer in range; the result depends on the number alone.
#[verifier::external_body]
pub(crate) fn number_as_u64(n: &serde_json::Number) -> (r: Option<u64>)
    ensures
        r == num_as_u64(*n),
{
    n.as_u64()
}

/// Relies on `serde_json::Number`'s `Display`: its decimal rendering,
/// which depends on the number alone.
#[verifier::external_body]
pub(crate) fn number_to_string(n: &serde_json::Number) -> (r: String)
    ensures
        r@ == num_str(*n),
{
    n.to_string()
}

/// Relies on `serde_json::Number`'s derived `Clone`: the clone is the
/// same number.
pub assume_specification[ <serde_json::Number as Clone>::clone ](
    n: &serde_json::Number,
) -> (r: serde_json::Number)
    ensures
        r == *n,
;

/// What indexing a JSON value yields: an element of an array, when the
/// value is an array long enough.
pub open spec fn jv_index(j: Jv, i: int) -> Option<Jv> {
    match j {
        Jv::Arr(a) => if 0 <= i < a.len() {
            Some(a[i])
        } else {
            None
        },
        _ => None,
    }
}

impl JsonValue {
    /// Index into a JSON value, as the upstream protocol addresses its
    /// fields: `None` when the value is not an array, or is an array
    /// with no such element.
    pub fn get(&self, i: usize) -> (r: Option<&JsonValue>)
        ensures
            match r {
                Some(e) => jv_index(self@, i as int) == Some(e@),
                None => jv_index(self@, i as int) is None,
            },
    {
        match self {
            JsonValue::Array(a) => {
                proof {
                    lemma_jv_of_seq(a@);
                }
                if i < a.len() {
                    Some(&a[i])
                } else {
                    None
                }
            },
            _ => None,
        }
    }
}

/// The rendering of a JSON value that decode errors quote: JSON-like,
/// with `,` between array elements, strings quoted but not escaped,
/// numbers as their `Display` writes them, and objects abbreviated to
/// `{...}` (the positional layout this crate decodes never looks inside
/// an object).
pub open spec fn render(j: Jv) -> Seq<char>
    decreases j,
{
    match j {
        Jv::Null => "null"@,
        Jv::Bool(b) => if b {
            "true"@
        } else {
            "false"@
        },
        Jv::Num(n) => num_str(n),
        Jv::Str(s) => "\""@ + s + "\""@,
        Jv::Arr(a) => "["@ + render_elems(a) + "]"@,
        Jv::Obj(m) => "{...}"@,
    }
}

/// The renderings of array elements, joined with `,`.
pub open spec fn render_elems(a: Seq<Jv>) -> Seq<char>
    decreases a,
{
    if a.len() == 0 {
        Seq::empty()
    } else if a.len() == 1 {
        render(a[0])
    } else {
        render(a[0]) + ","@ + render_elems(a.subrange(1, a.len() as int))
    }
}

/// Appending one element appends `,` and its rendering (or just its
/// rendering, to an empty sequence).
proof fn lemma_render_elems_push(a: Seq<Jv>, x: Jv)
    ensures
        render_elems(a.push(x)) == if a.len() == 0 {
            render(x)
        } else {
            render_elems(a) + ","@ + render(x)
        },
    decreases a,
{
    let b = a.push(x);
    if a.len() == 0 {
        assert(b.len() == 1);
        assert(b[0] == x);
    } else {
        assert(b.len() >= 2);
        assert(b[0] == a[0]);
        assert(b.subrange(1, b.len() as int) =~= a.subrange(1, a.len() as int).push(x));
        lemma_render_elems_push(a.subrange(1, a.len() as int), x);
        if a.len() == 1 {
            assert(a.subrange(1, a.len() as int).len() == 0);
        }
    }
}

impl JsonValue {
    /// Render this value as [`render`] describes, for quoting inside a
    /// decode error.
    pub fn to_rendered(&self) -> (r: String)
        ensures
            r@ == render(self@),
        decreases *self,
    {
        match self {
            JsonValue::Null => String::from_str("null"),
            JsonValue::Bool(b) => if *b {
                String::from_str("true")
            } else {
                String::from_str("false")
            },
            JsonValue::Number(n) => number_to_string(n),
            JsonValue::String(s) => {
                let mut r = String::from_str("\"");
                r.append(s.as_str());
                r.append("\"");
                r
            },
            JsonValue::Array(a) => {
                let ghost m = jv_of_seq(a@);
                proof {
                    lemma_jv_of_seq(a@);
                }
                let mut r = String::from_str("[");
                let mut i: usize = 0;
                while i < a.len()
                    invariant
                        *self == JsonValue::Array(*a),
                        i <= a.len(),
                        m == jv_of_seq(a@),
                        m.len() == a@.len(),
                        forall|k: int| 0 <= k < a@.len() ==> m[k] == jv_of(a@[k]),
                        r@ == "["@ + render_elems(m.subrange(0, i as int)),
                    decreases a.len() - i,
                {
                    if i > 0 {
                        r.append(",");
                    }
                    proof {
                        assert(decreases_to!(*self => (*self)->Array_0));
                        assert(decreases_to!(*a => (*a)[i as int]));
                    }
                    let piece = a[i].to_rendered();
                    r.append(piece.as_str());
                    proof {
                        assert(m.subrange(0, i as int).push(m[i as int]) =~= m.subrange(
                            0,
                            i as int + 1,
                        ));
                        lemma_render_elems_push(m.subrange(0, i as int), m[i as int]);
                    }
                    i += 1;
                }
                r.append("]");
                proof {
                    assert(m.subrange(0, a@.len() as int) =~= m);
                }
                r
            },
            JsonValue::Object(m) => String::from_str("{...}"),
        }
    }
}

} // verus!
