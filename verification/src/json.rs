//! JSON values, as the cards are made of.

use vstd::prelude::*;
use crate::assoc::{get_key, has_key, key_pos, keys_distinct, law_put_get, lemma_key_pos,
    lemma_key_pos_is, put_key};

verus! {

/// A JSON value.
#[derive(Debug)]
pub enum Json {
    Null,
    Bool(bool),
    /// A whole number that is not negative.
    Int(u64),
    /// Any other number, as it is written.
    Number(String),
    Text(String),
    List(Vec<Json>),
    Object(Vec<(String, Json)>),
}

/// What a JSON value is, with its texts and lists as sequences.
#[verifier::ext_equal]
pub enum JsonView {
    Null,
    Bool(bool),
    Int(u64),
    Number(Seq<char>),
    Text(Seq<char>),
    List(Seq<JsonView>),
    Object(Seq<(Seq<char>, JsonView)>),
}

impl Json {
    /// What the value is.
    pub open spec fn model(self) -> JsonView
        decreases self,
    {
        match self {
            Json::Null => JsonView::Null,
            Json::Bool(b) => JsonView::Bool(b),
            Json::Int(n) => JsonView::Int(n),
            Json::Number(t) => JsonView::Number(t@),
            Json::Text(s) => JsonView::Text(s@),
            Json::List(v) => JsonView::List(
                Seq::new(
                    v@.len(),
                    |i: int|
                        if 0 <= i < v@.len() {
                            v@[i].model()
                        } else {
                            JsonView::Null
                        },
                ),
            ),
            Json::Object(v) => JsonView::Object(
                Seq::new(
                    v@.len(),
                    |i: int|
                        if 0 <= i < v@.len() {
                            (v@[i].0@, v@[i].1.model())
                        } else {
                            (Seq::empty(), JsonView::Null)
                        },
                ),
            ),
        }
    }
}

/// What the values are.
pub open spec fn models(v: Seq<Json>) -> Seq<JsonView> {
    v.map_values(|j: Json| j.model())
}

/// What the fields are.
pub open spec fn fields(v: Seq<(String, Json)>) -> Seq<(Seq<char>, JsonView)> {
    v.map_values(|p: (String, Json)| (p.0@, p.1.model()))
}

/// What a list is.
pub proof fn lemma_list_model(v: Vec<Json>)
    ensures
        Json::List(v).model() == JsonView::List(models(v@)),
{
    let l = Json::List(v).model()->List_0;
    assert(l.len() == v@.len());
    assert forall|i: int| 0 <= i < v@.len() implies l[i] == #[trigger] models(v@)[i] by {
        assert(l[i] == v@[i].model());
    }
    assert(l =~= models(v@));
}

/// What an object is.
pub proof fn lemma_object_model(v: Vec<(String, Json)>)
    ensures
        Json::Object(v).model() == JsonView::Object(fields(v@)),
{
    let l = Json::Object(v).model()->Object_0;
    assert(l.len() == v@.len());
    assert forall|i: int| 0 <= i < v@.len() implies l[i] == #[trigger] fields(v@)[i] by {
        assert(l[i] == (v@[i].0@, v@[i].1.model()));
    }
    assert(l =~= fields(v@));
}

/// A text value.
pub fn text(s: &str) -> (r: Json)
    ensures
        r.model() == JsonView::Text(s@),
{
    Json::Text(s.to_owned())
}

/// A list value.
pub fn list(v: Vec<Json>) -> (r: Json)
    ensures
        r.model() == JsonView::List(models(v@)),
{
    let r = Json::List(v);
    proof {
        lemma_list_model(v);
    }
    r
}

/// An object value with these fields.
pub fn object(v: Vec<(String, Json)>) -> (r: Json)
    ensures
        r.model() == JsonView::Object(fields(v@)),
{
    let r = Json::Object(v);
    proof {
        lemma_object_model(v);
    }
    r
}

/// One field.
pub fn obj1(k1: &str, v1: Json) -> (r: Json)
    ensures
        r.model() == JsonView::Object(seq![(k1@, v1.model())]),
{
    let mut v: Vec<(String, Json)> = Vec::new();
    v.push((k1.to_owned(), v1));
    assert(fields(v@) =~= seq![(k1@, v1.model())]);
    object(v)
}

/// Two fields.
pub fn obj2(k1: &str, v1: Json, k2: &str, v2: Json) -> (r: Json)
    ensures
        r.model() == JsonView::Object(seq![(k1@, v1.model()), (k2@, v2.model())]),
{
    let mut v: Vec<(String, Json)> = Vec::new();
    v.push((k1.to_owned(), v1));
    v.push((k2.to_owned(), v2));
    assert(fields(v@) =~= seq![(k1@, v1.model()), (k2@, v2.model())]);
    object(v)
}

/// Three fields.
pub fn obj3(k1: &str, v1: Json, k2: &str, v2: Json, k3: &str, v3: Json) -> (r: Json)
    ensures
        r.model() == JsonView::Object(seq![(k1@, v1.model()), (k2@, v2.model()), (k3@, v3.model())]),
{
    let mut v: Vec<(String, Json)> = Vec::new();
    v.push((k1.to_owned(), v1));
    v.push((k2.to_owned(), v2));
    v.push((k3.to_owned(), v3));
    assert(fields(v@) =~= seq![(k1@, v1.model()), (k2@, v2.model()), (k3@, v3.model())]);
    object(v)
}

/// Four fields.
pub fn obj4(k1: &str, v1: Json, k2: &str, v2: Json, k3: &str, v3: Json, k4: &str, v4: Json) -> (r: Json)
    ensures
        r.model() == JsonView::Object(seq![(k1@, v1.model()), (k2@, v2.model()), (k3@, v3.model()), (k4@, v4.model())]),
{
    let mut v: Vec<(String, Json)> = Vec::new();
    v.push((k1.to_owned(), v1));
    v.push((k2.to_owned(), v2));
    v.push((k3.to_owned(), v3));
    v.push((k4.to_owned(), v4));
    assert(fields(v@) =~= seq![(k1@, v1.model()), (k2@, v2.model()), (k3@, v3.model()), (k4@, v4.model())]);
    object(v)
}

/// Five fields.
pub fn obj5(k1: &str, v1: Json, k2: &str, v2: Json, k3: &str, v3: Json, k4: &str, v4: Json, k5: &str, v5: Json) -> (r: Json)
    ensures
        r.model() == JsonView::Object(seq![(k1@, v1.model()), (k2@, v2.model()), (k3@, v3.model()), (k4@, v4.model()), (k5@, v5.model())]),
{
    let mut v: Vec<(String, Json)> = Vec::new();
    v.push((k1.to_owned(), v1));
    v.push((k2.to_owned(), v2));
    v.push((k3.to_owned(), v3));
    v.push((k4.to_owned(), v4));
    v.push((k5.to_owned(), v5));
    assert(fields(v@) =~= seq![(k1@, v1.model()), (k2@, v2.model()), (k3@, v3.model()), (k4@, v4.model()), (k5@, v5.model())]);
    object(v)
}

/// Six fields.
pub fn obj6(k1: &str, v1: Json, k2: &str, v2: Json, k3: &str, v3: Json, k4: &str, v4: Json, k5: &str, v5: Json, k6: &str, v6: Json) -> (r: Json)
    ensures
        r.model() == JsonView::Object(seq![(k1@, v1.model()), (k2@, v2.model()), (k3@, v3.model()), (k4@, v4.model()), (k5@, v5.model()), (k6@, v6.model())]),
{
    let mut v: Vec<(String, Json)> = Vec::new();
    v.push((k1.to_owned(), v1));
    v.push((k2.to_owned(), v2));
    v.push((k3.to_owned(), v3));
    v.push((k4.to_owned(), v4));
    v.push((k5.to_owned(), v5));
    v.push((k6.to_owned(), v6));
    assert(fields(v@) =~= seq![(k1@, v1.model()), (k2@, v2.model()), (k3@, v3.model()), (k4@, v4.model()), (k5@, v5.model()), (k6@, v6.model())]);
    object(v)
}

/// Eight fields.
pub fn obj8(k1: &str, v1: Json, k2: &str, v2: Json, k3: &str, v3: Json, k4: &str, v4: Json, k5: &str, v5: Json, k6: &str, v6: Json, k7: &str, v7: Json, k8: &str, v8: Json) -> (r: Json)
    ensures
        r.model() == JsonView::Object(seq![(k1@, v1.model()), (k2@, v2.model()), (k3@, v3.model()), (k4@, v4.model()), (k5@, v5.model()), (k6@, v6.model()), (k7@, v7.model()), (k8@, v8.model())]),
{
    let mut v: Vec<(String, Json)> = Vec::new();
    v.push((k1.to_owned(), v1));
    v.push((k2.to_owned(), v2));
    v.push((k3.to_owned(), v3));
    v.push((k4.to_owned(), v4));
    v.push((k5.to_owned(), v5));
    v.push((k6.to_owned(), v6));
    v.push((k7.to_owned(), v7));
    v.push((k8.to_owned(), v8));
    assert(fields(v@) =~= seq![(k1@, v1.model()), (k2@, v2.model()), (k3@, v3.model()), (k4@, v4.model()), (k5@, v5.model()), (k6@, v6.model()), (k7@, v7.model()), (k8@, v8.model())]);
    object(v)
}

/// Nine fields.
pub fn obj9(k1: &str, v1: Json, k2: &str, v2: Json, k3: &str, v3: Json, k4: &str, v4: Json, k5: &str, v5: Json, k6: &str, v6: Json, k7: &str, v7: Json, k8: &str, v8: Json, k9: &str, v9: Json) -> (r: Json)
    ensures
        r.model() == JsonView::Object(seq![(k1@, v1.model()), (k2@, v2.model()), (k3@, v3.model()), (k4@, v4.model()), (k5@, v5.model()), (k6@, v6.model()), (k7@, v7.model()), (k8@, v8.model()), (k9@, v9.model())]),
{
    let mut v: Vec<(String, Json)> = Vec::new();
    v.push((k1.to_owned(), v1));
    v.push((k2.to_owned(), v2));
    v.push((k3.to_owned(), v3));
    v.push((k4.to_owned(), v4));
    v.push((k5.to_owned(), v5));
    v.push((k6.to_owned(), v6));
    v.push((k7.to_owned(), v7));
    v.push((k8.to_owned(), v8));
    v.push((k9.to_owned(), v9));
    assert(fields(v@) =~= seq![(k1@, v1.model()), (k2@, v2.model()), (k3@, v3.model()), (k4@, v4.model()), (k5@, v5.model()), (k6@, v6.model()), (k7@, v7.model()), (k8@, v8.model()), (k9@, v9.model())]);
    object(v)
}

/// One value in a list.
pub fn items1(v1: Json) -> (r: Vec<Json>)
    ensures
        models(r@) == seq![v1.model()],
{
    let mut v: Vec<Json> = Vec::new();
    v.push(v1);
    assert(models(v@) =~= seq![v1.model()]);
    v
}

/// Two values in a list.
pub fn items2(v1: Json, v2: Json) -> (r: Vec<Json>)
    ensures
        models(r@) == seq![v1.model(), v2.model()],
{
    let mut v: Vec<Json> = Vec::new();
    v.push(v1);
    v.push(v2);
    assert(models(v@) =~= seq![v1.model(), v2.model()]);
    v
}

/// Three values in a list.
pub fn items3(v1: Json, v2: Json, v3: Json) -> (r: Vec<Json>)
    ensures
        models(r@) == seq![v1.model(), v2.model(), v3.model()],
{
    let mut v: Vec<Json> = Vec::new();
    v.push(v1);
    v.push(v2);
    v.push(v3);
    assert(models(v@) =~= seq![v1.model(), v2.model(), v3.model()]);
    v
}

/// Adds a value to a list.
pub fn add_item(v: &mut Vec<Json>, j: Json)
    ensures
        models(final(v)@) == models(old(v)@).push(j.model()),
{
    v.push(j);
    assert(models(v@) =~= models(old(v)@).push(j.model()));
}

/// Adds values to a list.
pub fn add_items(v: &mut Vec<Json>, more: Vec<Json>)
    ensures
        models(final(v)@) == models(old(v)@) + models(more@),
{
    let mut rest = more;
    v.append(&mut rest);
    assert(models(v@) =~= models(old(v)@) + models(more@));
}

/// The fields of `a` with those of `b` written over them.
pub open spec fn merged_fields(
    a: Seq<(Seq<char>, JsonView)>,
    b: Seq<(Seq<char>, JsonView)>,
) -> Seq<(Seq<char>, JsonView)>
    decreases b.len(),
{
    if b.len() == 0 {
        a
    } else {
        merged_fields(put_key(a, b[0].0, b[0].1), b.subrange(1, b.len() as int))
    }
}

/// The object `a` with the fields of the object `b` written over its own; anything else
/// leaves `a` as it is.
pub open spec fn merged(a: JsonView, b: JsonView) -> JsonView {
    match (a, b) {
        (JsonView::Object(x), JsonView::Object(y)) => JsonView::Object(merged_fields(x, y)),
        _ => a,
    }
}

/// Sets a field.
fn put_field(v: &mut Vec<(String, Json)>, k: String, j: Json)
    ensures
        fields(final(v)@) == put_key(fields(old(v)@), k@, j.model()),
{
    let ghost key = k@;
    let ghost f = fields(v@);
    let mut i: usize = 0;
    while i < v.len() && !(v[i].0 == k)
        invariant
            i <= v.len(),
            f == fields(v@),
            key == k@,
            forall|n: int| 0 <= n < i ==> (#[trigger] f[n]).0 != key,
        decreases v.len() - i,
    {
        i = i + 1;
    }
    proof {
        lemma_key_pos_is(f, key, i as int);
    }
    if i < v.len() {
        v[i] = (k, j);
    } else {
        v.push((k, j));
    }
    assert(fields(v@) =~= put_key(f, key, j.model()));
}

/// Writes the fields of one object over those of another.
pub fn merge(a: Json, b: Json) -> (r: Json)
    ensures
        r.model() == merged(a.model(), b.model()),
{
    let ghost x = a.model();
    let ghost y = b.model();
    match a {
        Json::Object(fa) => match b {
            Json::Object(fb) => {
                let mut out = fa;
                let mut rest = fb;
                proof {
                    lemma_object_model(out);
                    lemma_object_model(rest);
                }
                let ghost whole = merged_fields(fields(out@), fields(rest@));
                while rest.len() > 0
                    invariant
                        merged_fields(fields(out@), fields(rest@)) == whole,
                    decreases rest.len(),
                {
                    let ghost before = fields(rest@);
                    let (k, j) = rest.remove(0);
                    assert(fields(rest@) =~= before.subrange(1, before.len() as int));
                    put_field(&mut out, k, j);
                }
                object(out)
            },
            _ => Json::Object(fa),
        },
        _ => a,
    }
}

impl JsonView {
    /// The value of a field of an object.
    pub open spec fn field(self, k: Seq<char>) -> Option<JsonView> {
        match self {
            JsonView::Object(f) => get_key(f, k),
            _ => None,
        }
    }

    /// The text in a field.
    pub open spec fn text_at(self, k: Seq<char>) -> Option<Seq<char>> {
        match self.field(k) {
            Some(JsonView::Text(s)) => Some(s),
            _ => None,
        }
    }

    /// The number in a field.
    pub open spec fn int_at(self, k: Seq<char>) -> Option<u64> {
        match self.field(k) {
            Some(JsonView::Int(n)) => Some(n),
            _ => None,
        }
    }

    /// The text in a field, or nothing.
    pub open spec fn text_or_empty(self, k: Seq<char>) -> Seq<char> {
        match self.text_at(k) {
            Some(s) => s,
            None => Seq::empty(),
        }
    }
}

impl Json {
    /// The value of a field of an object.
    pub fn get(&self, k: &str) -> (r: Option<&Json>)
        ensures
            match r {
                Some(j) => self.model().field(k@) == Some(j.model()),
                None => self.model().field(k@) is None,
            },
    {
        match self {
            Json::Object(v) => {
                let key = k.to_owned();
                let ghost f = fields(v@);
                proof {
                    lemma_object_model(*v);
                }
                let mut i: usize = 0;
                while i < v.len() && !(v[i].0 == key)
                    invariant
                        i <= v.len(),
                        f == fields(v@),
                        key@ == k@,
                        forall|n: int| 0 <= n < i ==> (#[trigger] f[n]).0 != k@,
                    decreases v.len() - i,
                {
                    i = i + 1;
                }
                proof {
                    lemma_key_pos_is(f, k@, i as int);
                }
                if i < v.len() {
                    Some(&v[i].1)
                } else {
                    None
                }
            },
            _ => None,
        }
    }

    /// The text in a field.
    pub fn text_at(&self, k: &str) -> (r: Option<String>)
        ensures
            r.deep_view() == self.model().text_at(k@),
    {
        match self.get(k) {
            Some(Json::Text(s)) => Some(s.clone()),
            _ => None,
        }
    }

    /// The number in a field.
    pub fn int_at(&self, k: &str) -> (r: Option<u64>)
        ensures
            r == self.model().int_at(k@),
    {
        match self.get(k) {
            Some(Json::Int(n)) => Some(*n),
            _ => None,
        }
    }

    /// The text in a field, or nothing.
    pub fn text_or_empty(&self, k: &str) -> (r: String)
        ensures
            r@ == self.model().text_or_empty(k@),
    {
        match self.text_at(k) {
            Some(s) => s,
            None => String::new(),
        }
    }
}

/// Writing fields over others: what is written is read back, and what is not stays.
pub proof fn law_merge_reads_back(
    a: Seq<(Seq<char>, JsonView)>,
    b: Seq<(Seq<char>, JsonView)>,
    k: Seq<char>,
)
    requires
        keys_distinct(b),
    ensures
        merged(JsonView::Object(a), JsonView::Object(b)).field(k) == (if has_key(b, k) {
            get_key(b, k)
        } else {
            get_key(a, k)
        }),
    decreases b.len(),
{
    if b.len() > 0 {
        let rest = b.subrange(1, b.len() as int);
        let c = put_key(a, b[0].0, b[0].1);
        assert(keys_distinct(rest)) by {
            assert forall|i: int, j: int| 0 <= i < j < rest.len() implies (#[trigger] rest[i]).0
                != (#[trigger] rest[j]).0 by {
                assert(b[i + 1].0 != b[j + 1].0);
            }
        }
        law_merge_reads_back(c, rest, k);
        law_put_get(a, b[0].0, b[0].1, k);
        lemma_key_pos(b, k);
        lemma_key_pos(rest, k);
        if b[0].0 == k {
            lemma_key_pos_is(b, k, 0);
            assert(!has_key(rest, k)) by {
                if has_key(rest, k) {
                    let j = key_pos(rest, k);
                    assert(b[j + 1].0 != b[0].0);
                }
            }
        } else {
            let j = key_pos(rest, k);
            assert forall|n: int| 0 <= n < j + 1 implies (#[trigger] b[n]).0 != k by {
                if n > 0 {
                    assert(rest[n - 1].0 != k);
                }
            }
            if j < rest.len() {
                assert(b[j + 1] == rest[j]);
            }
            lemma_key_pos_is(b, k, j + 1);
        }
    } else {
        lemma_key_pos(b, k);
    }
}

} // verus!
