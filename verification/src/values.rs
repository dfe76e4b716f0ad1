//! JSON values as they are read from bytes and written as text.

use vstd::prelude::*;
use crate::assoc::keys_distinct;
use crate::json::{fields, lemma_list_model, lemma_object_model, list, models, object, Json,
    JsonView};

verus! {

/// A value of `serde_json`.
#[verifier::external_type_specification]
#[verifier::external_body]
pub struct ExValue(serde_json::Value);

/// What a value of `serde_json` holds: the fields of an object in the order in which its map
/// gives them out, and a number as it is written unless it is whole and not negative.
pub uninterp spec fn value_in(v: serde_json::Value) -> JsonView;

/// The JSON value that bytes are the text of, if they are the text of one.
pub uninterp spec fn json_in(bytes: Seq<u8>) -> Option<JsonView>;

/// The text of a JSON value.
pub uninterp spec fn json_text(v: JsonView) -> Seq<char>;

/// Fields as a map of `serde_json` holds them that they were put into one after the other.
pub uninterp spec fn arranged(f: Seq<(Seq<char>, JsonView)>) -> Seq<(Seq<char>, JsonView)>;

/// The outermost layer of a value.
enum Layer<'a> {
    Null,
    Bool(bool),
    /// A number, if it is whole and not negative, and how it is written.
    Number(Option<u64>, String),
    Text(String),
    List(&'a Vec<serde_json::Value>),
    Object(Vec<(&'a String, &'a serde_json::Value)>),
}

/// What values hold.
spec fn values_in(l: Seq<serde_json::Value>) -> Seq<JsonView> {
    l.map_values(|v: serde_json::Value| value_in(v))
}

/// What the fields of a value hold.
spec fn fields_in(f: Seq<(&String, &serde_json::Value)>) -> Seq<(Seq<char>, JsonView)> {
    f.map_values(|p: (&String, &serde_json::Value)| (p.0@, value_in(*p.1)))
}

impl<'a> Layer<'a> {
    /// What the value is that has this outermost layer.
    spec fn model(self) -> JsonView {
        match self {
            Layer::Null => JsonView::Null,
            Layer::Bool(b) => JsonView::Bool(b),
            Layer::Number(n, t) => match n {
                Some(n) => JsonView::Int(n),
                None => JsonView::Number(t@),
            },
            Layer::Text(s) => JsonView::Text(s@),
            Layer::List(l) => JsonView::List(values_in(l@)),
            Layer::Object(f) => JsonView::Object(fields_in(f@)),
        }
    }
}

/// Tells the variants of `serde_json::Value` apart, with `Number::as_u64`, `Number`'s
/// `to_string` and the entries of a `Map` in its order. The contract claims that the layer
/// is that of what the value holds.
#[verifier::external_body]
fn take_apart<'a>(v: &'a serde_json::Value) -> (r: Layer<'a>)
    ensures
        r.model() == value_in(*v),
{
    match v {
        serde_json::Value::Null => Layer::Null,
        serde_json::Value::Bool(b) => Layer::Bool(*b),
        serde_json::Value::Number(n) => Layer::Number(n.as_u64(), n.to_string()),
        serde_json::Value::String(s) => Layer::Text(s.clone()),
        serde_json::Value::Array(l) => Layer::List(l),
        serde_json::Value::Object(m) => Layer::Object(m.iter().collect()),
    }
}

/// Calls `sonic_rs::from_slice` for a value of `serde_json`. The contract names what is read,
/// which depends on the bytes alone, and claims nothing of which bytes are refused.
#[verifier::external_body]
fn read_value(bytes: &[u8]) -> (r: Option<serde_json::Value>)
    ensures
        match r {
            Some(v) => json_in(bytes@) == Some(value_in(v)),
            None => json_in(bytes@) is None,
        },
{
    sonic_rs::from_slice::<serde_json::Value>(bytes).ok()
}

/// The values in a list are smaller than the list.
proof fn lemma_smaller_items(v: JsonView, i: int)
    requires
        v is List,
        0 <= i < v->List_0.len(),
    ensures
        decreases_to!(v => v->List_0[i]),
{
    assert(decreases_to!(v => v->List_0));
    assert(decreases_to!(v->List_0 => v->List_0[i]));
}

/// The values in an object are smaller than the object.
proof fn lemma_smaller_fields(v: JsonView, i: int)
    requires
        v is Object,
        0 <= i < v->Object_0.len(),
    ensures
        decreases_to!(v => v->Object_0[i].1),
{
    assert(decreases_to!(v => v->Object_0));
    assert(decreases_to!(v->Object_0 => v->Object_0[i]));
    assert(decreases_to!(v->Object_0[i] => v->Object_0[i].1));
}

/// The library's value for one of `serde_json`.
fn json_of(v: &serde_json::Value) -> (r: Json)
    ensures
        r.model() == value_in(*v),
    decreases value_in(*v),
{
    match take_apart(v) {
        Layer::Null => Json::Null,
        Layer::Bool(b) => Json::Bool(b),
        Layer::Number(n, t) => match n {
            Some(n) => Json::Int(n),
            None => Json::Number(t),
        },
        Layer::Text(s) => Json::Text(s),
        Layer::List(l) => {
            let ghost held = values_in(l@);
            let mut out: Vec<Json> = Vec::new();
            let mut i: usize = 0;
            assert(models(out@) =~= held.take(0));
            while i < l.len()
                invariant
                    i <= l.len(),
                    held == values_in(l@),
                    value_in(*v) == JsonView::List(held),
                    models(out@) == held.take(i as int),
                decreases l.len() - i,
            {
                assert(held[i as int] == value_in(l@[i as int]));
                proof {
                    lemma_smaller_items(value_in(*v), i as int);
                }
                let j = json_of(&l[i]);
                let ghost before = models(out@);
                out.push(j);
                assert(models(out@) =~= before.push(held[i as int]));
                assert(held.take(i + 1) =~= held.take(i as int).push(held[i as int]));
                i = i + 1;
            }
            assert(held.take(i as int) =~= held);
            list(out)
        },
        Layer::Object(f) => {
            let ghost held = fields_in(f@);
            let mut out: Vec<(String, Json)> = Vec::new();
            let mut i: usize = 0;
            assert(fields(out@) =~= held.take(0));
            while i < f.len()
                invariant
                    i <= f.len(),
                    held == fields_in(f@),
                    value_in(*v) == JsonView::Object(held),
                    fields(out@) == held.take(i as int),
                decreases f.len() - i,
            {
                let (k, x) = f[i];
                assert(held[i as int] == (k@, value_in(*x)));
                proof {
                    lemma_smaller_fields(value_in(*v), i as int);
                }
                let j = json_of(x);
                let ghost before = fields(out@);
                out.push((k.clone(), j));
                assert(fields(out@) =~= before.push(held[i as int]));
                assert(held.take(i + 1) =~= held.take(i as int).push(held[i as int]));
                i = i + 1;
            }
            assert(held.take(i as int) =~= held);
            object(out)
        },
    }
}

/// The JSON value that bytes are the text of, if they are the text of one.
pub fn read_json(bytes: &[u8]) -> (r: Option<Json>)
    ensures
        (match r {
            Some(j) => Some(j.model()),
            None => None,
        }) == json_in(bytes@),
{
    match read_value(bytes) {
        Some(v) => Some(json_of(&v)),
        None => None,
    }
}

/// What bytes are read as: what is not the text of a JSON value reads as null.
pub open spec fn body_in(bytes: Seq<u8>) -> JsonView {
    match json_in(bytes) {
        Some(v) => v,
        None => JsonView::Null,
    }
}

/// Reads bytes as a JSON value, or as null.
pub fn parse_body(bytes: &[u8]) -> (r: Json)
    ensures
        r.model() == body_in(bytes@),
{
    match read_json(bytes) {
        Some(j) => j,
        None => Json::Null,
    }
}

/// What a value of `serde_json` other than an object is made of.
enum Part {
    Null,
    Bool(bool),
    Int(u64),
    Text(String),
    List(Vec<serde_json::Value>),
}

impl Part {
    /// What the value is that is made of this.
    spec fn model(self) -> JsonView {
        match self {
            Part::Null => JsonView::Null,
            Part::Bool(b) => JsonView::Bool(b),
            Part::Int(n) => JsonView::Int(n),
            Part::Text(s) => JsonView::Text(s@),
            Part::List(l) => JsonView::List(values_in(l@)),
        }
    }
}

/// Makes a `serde_json::Value` of its variants and of `From<u64>`. The contract claims that
/// the value holds what it is made of.
#[verifier::external_body]
fn put_together(p: Part) -> (r: serde_json::Value)
    ensures
        value_in(r) == p.model(),
{
    match p {
        Part::Null => serde_json::Value::Null,
        Part::Bool(b) => serde_json::Value::Bool(b),
        Part::Int(n) => serde_json::Value::from(n),
        Part::Text(s) => serde_json::Value::String(s),
        Part::List(l) => serde_json::Value::Array(l),
    }
}

/// What fields hold.
spec fn entries_in(f: Seq<(String, serde_json::Value)>) -> Seq<(Seq<char>, JsonView)> {
    f.map_values(|p: (String, serde_json::Value)| (p.0@, value_in(p.1)))
}

/// Collects fields into a `serde_json::Map`, one after the other. The contract names what the
/// map then holds, and claims that no key occurs in it twice and that fields with different
/// keys are all there.
#[verifier::external_body]
fn object_value(f: Vec<(String, serde_json::Value)>) -> (r: serde_json::Value)
    ensures
        value_in(r) == JsonView::Object(arranged(entries_in(f@))),
        keys_distinct(value_in(r)->Object_0),
        keys_distinct(entries_in(f@)) ==> value_in(r)->Object_0.to_multiset() == entries_in(
            f@,
        ).to_multiset(),
{
    serde_json::Value::Object(f.into_iter().collect())
}

/// A value as `serde_json` holds it: the fields of every object arranged, and a number that
/// is kept as it is written read anew.
pub open spec fn settled(v: JsonView) -> JsonView
    decreases v,
{
    match v {
        JsonView::Number(t) => body_in(vstd::utf8::encode_utf8(t)),
        JsonView::List(l) => JsonView::List(
            Seq::new(
                l.len(),
                |i: int|
                    if 0 <= i < l.len() {
                        settled(l[i])
                    } else {
                        JsonView::Null
                    },
            ),
        ),
        JsonView::Object(f) => JsonView::Object(arranged(settled_fields(f))),
        _ => v,
    }
}

/// Fields, each as `serde_json` holds it.
pub open spec fn settled_fields(f: Seq<(Seq<char>, JsonView)>) -> Seq<(Seq<char>, JsonView)>
    decreases f,
{
    Seq::new(
        f.len(),
        |i: int|
            if 0 <= i < f.len() {
                (f[i].0, settled(f[i].1))
            } else {
                (Seq::empty(), JsonView::Null)
            },
    )
}

/// The value of `serde_json` for one of the library.
pub fn value_of(j: &Json) -> (r: serde_json::Value)
    ensures
        value_in(r) == settled(j.model()),
    decreases j,
{
    match j {
        Json::Null => put_together(Part::Null),
        Json::Bool(b) => put_together(Part::Bool(*b)),
        Json::Int(n) => put_together(Part::Int(*n)),
        Json::Number(t) => match read_value(t.as_str().as_bytes()) {
            Some(v) => v,
            None => put_together(Part::Null),
        },
        Json::Text(s) => put_together(Part::Text(s.clone())),
        Json::List(l) => {
            let ghost held = models(l@);
            proof {
                lemma_list_model(*l);
            }
            let ghost want = settled(j.model())->List_0;
            let mut out: Vec<serde_json::Value> = Vec::new();
            let mut i: usize = 0;
            assert(values_in(out@) =~= want.take(0));
            while i < l.len()
                invariant
                    i <= l.len(),
                    *j == Json::List(*l),
                    held == models(l@),
                    j.model() == JsonView::List(held),
                    want == settled(j.model())->List_0,
                    values_in(out@) == want.take(i as int),
                decreases l.len() - i,
            {
                assert(want[i as int] == settled(held[i as int]));
                let v = value_of(&l[i]);
                let ghost before = values_in(out@);
                out.push(v);
                assert(values_in(out@) =~= before.push(want[i as int]));
                assert(want.take(i + 1) =~= want.take(i as int).push(want[i as int]));
                i = i + 1;
            }
            assert(want.take(i as int) =~= want);
            put_together(Part::List(out))
        },
        Json::Object(f) => {
            let ghost held = fields(f@);
            proof {
                lemma_object_model(*f);
            }
            let ghost want = settled_fields(held);
            let mut out: Vec<(String, serde_json::Value)> = Vec::new();
            let mut i: usize = 0;
            assert(entries_in(out@) =~= want.take(0));
            while i < f.len()
                invariant
                    i <= f.len(),
                    *j == Json::Object(*f),
                    held == fields(f@),
                    want == settled_fields(held),
                    entries_in(out@) == want.take(i as int),
                decreases f.len() - i,
            {
                assert(held[i as int] == (f@[i as int].0@, f@[i as int].1.model()));
                assert(decreases_to!(*j => j->Object_0));
                assert(decreases_to!(f@ => f@[i as int]));
                assert(decreases_to!(f@[i as int] => f@[i as int].1));
                let v = value_of(&f[i].1);
                let ghost before = entries_in(out@);
                out.push((f[i].0.clone(), v));
                assert(entries_in(out@) =~= before.push(want[i as int]));
                assert(want.take(i + 1) =~= want.take(i as int).push(want[i as int]));
                i = i + 1;
            }
            assert(want.take(i as int) =~= want);
            object_value(out)
        },
    }
}

/// Calls `sonic_rs::to_string` for a value of `serde_json`. The contract names the text, which
/// depends on what the value holds alone.
#[verifier::external_body]
fn value_text(v: &serde_json::Value) -> (r: String)
    ensures
        r@ == json_text(value_in(*v)),
{
    sonic_rs::to_string(v).unwrap_or_default()
}

/// The text of a value.
pub fn write_json(j: &Json) -> (r: String)
    ensures
        r@ == json_text(settled(j.model())),
{
    value_text(&value_of(j))
}

} // verus!
