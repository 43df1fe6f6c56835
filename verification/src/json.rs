//! A plain model of JSON values and the view that contracts speak of.
use vstd::prelude::*;
use crate::text::{chars_of, decimal, decimal_chars, string_of};

verus! {

/// A JSON value; numbers keep their textual form.
#[derive(Debug)]
pub enum JsonValue {
    Null,
    Bool(bool),
    Number(String),
    Str(String),
    Array(Vec<JsonValue>),
    Object(Vec<(String, JsonValue)>),
}

/// The mathematical form of a JSON value: text as character sequences.
pub enum JsonView {
    Null,
    Bool(bool),
    Number(Seq<char>),
    Str(Seq<char>),
    Array(Seq<JsonView>),
    Object(Seq<(Seq<char>, JsonView)>),
}

/// The view of a JSON value.
pub open spec fn json_view(v: JsonValue) -> JsonView
    decreases v,
{
    match v {
        JsonValue::Null => JsonView::Null,
        JsonValue::Bool(b) => JsonView::Bool(b),
        JsonValue::Number(n) => JsonView::Number(n@),
        JsonValue::Str(s) => JsonView::Str(s@),
        JsonValue::Array(items) => JsonView::Array(
            Seq::new(
                items@.len(),
                |i: int|
                    if 0 <= i < items@.len() {
                        json_view(items@[i])
                    } else {
                        JsonView::Null
                    },
            ),
        ),
        JsonValue::Object(entries) => JsonView::Object(
            Seq::new(
                entries@.len(),
                |i: int|
                    if 0 <= i < entries@.len() {
                        (entries@[i].0@, json_view(entries@[i].1))
                    } else {
                        (Seq::empty(), JsonView::Null)
                    },
            ),
        ),
    }
}

/// The views of a sequence of JSON values.
pub open spec fn json_views(items: Seq<JsonValue>) -> Seq<JsonView> {
    Seq::new(items.len(), |i: int| json_view(items[i]))
}

/// The views of the entries of an object.
pub open spec fn entry_views(entries: Seq<(String, JsonValue)>) -> Seq<(Seq<char>, JsonView)> {
    Seq::new(entries.len(), |i: int| (entries[i].0@, json_view(entries[i].1)))
}

/// The value of the first entry named `key`.
pub open spec fn view_get(entries: Seq<(Seq<char>, JsonView)>, key: Seq<char>) -> Option<JsonView>
    decreases entries.len(),
{
    if entries.len() == 0 {
        None
    } else if entries[0].0 == key {
        Some(entries[0].1)
    } else {
        view_get(entries.drop_first(), key)
    }
}

/// A JSON string.
pub fn json_str(s: &str) -> (r: JsonValue)
    ensures
        json_view(r) == JsonView::Str(s@),
{
    JsonValue::Str(s.to_owned())
}

/// A JSON string owning `s`.
pub fn json_string(s: String) -> (r: JsonValue)
    ensures
        json_view(r) == JsonView::Str(s@),
{
    JsonValue::Str(s)
}

/// A JSON number holding the unsigned integer `n`.
pub fn json_u64(n: u64) -> (r: JsonValue)
    ensures
        json_view(r) == JsonView::Number(decimal(n as nat)),
{
    JsonValue::Number(string_of(&decimal_chars(n)))
}

/// A JSON array of the given items.
pub fn json_array(items: Vec<JsonValue>) -> (r: JsonValue)
    ensures
        json_view(r) == JsonView::Array(json_views(items@)),
{
    let r = JsonValue::Array(items);
    assert(json_view(r)->Array_0 =~= json_views(items@));
    r
}

/// A JSON object of the given entries.
pub fn json_object(entries: Vec<(String, JsonValue)>) -> (r: JsonValue)
    ensures
        json_view(r) == JsonView::Object(entry_views(entries@)),
{
    let r = JsonValue::Object(entries);
    assert(json_view(r)->Object_0 =~= entry_views(entries@));
    r
}

/// An object entry `key: value`.
pub fn entry(key: &str, value: JsonValue) -> (r: (String, JsonValue))
    ensures
        r.0@ == key@,
        r.1 == value,
{
    (key.to_owned(), value)
}

/// `v[key]` as serde_json reads it: the entry's value in an object, else null.
pub open spec fn view_field(v: JsonView, key: Seq<char>) -> JsonView {
    match v {
        JsonView::Object(es) => match view_get(es, key) {
            Some(x) => x,
            None => JsonView::Null,
        },
        _ => JsonView::Null,
    }
}

/// The first element of an array.
pub open spec fn view_first(v: JsonView) -> Option<JsonView> {
    match v {
        JsonView::Array(items) => if items.len() > 0 {
            Some(items[0])
        } else {
            None
        },
        _ => None,
    }
}

/// The text of a string value.
pub open spec fn view_str(v: JsonView) -> Option<Seq<char>> {
    match v {
        JsonView::Str(s) => Some(s),
        _ => None,
    }
}

/// The value of the first entry named `key`, if any.
pub fn get_entry<'a>(entries: &'a Vec<(String, JsonValue)>, key: &str) -> (r: Option<&'a JsonValue>)
    ensures
        match view_get(entry_views(entries@), key@) {
            Some(x) => r matches Some(v) && json_view(*v) == x,
            None => r is None,
        },
{
    let k = chars_of(key);
    let mut i: usize = 0;
    assert(entry_views(entries@).skip(0) =~= entry_views(entries@));
    while i < entries.len()
        invariant
            i <= entries.len(),
            k@ == key@,
            view_get(entry_views(entries@), key@) == view_get(entry_views(entries@).skip(i as int), key@),
        decreases entries.len() - i,
    {
        let ghost rest = entry_views(entries@).skip(i as int);
        assert(rest[0] == (entries@[i as int].0@, json_view(entries@[i as int].1)));
        if crate::url::detect::same_chars(&chars_of(entries[i].0.as_str()), &k) {
            return Some(&entries[i].1);
        }
        assert(rest.drop_first() =~= entry_views(entries@).skip(i + 1));
        i = i + 1;
    }
    assert(entry_views(entries@).skip(i as int) =~= Seq::<(Seq<char>, JsonView)>::empty());
    None
}

/// `v[key]` (`None` standing for null).
pub fn field<'a>(v: &'a JsonValue, key: &str) -> (r: Option<&'a JsonValue>)
    ensures
        match r {
            Some(x) => json_view(*x) == view_field(json_view(*v), key@),
            None => view_field(json_view(*v), key@) == JsonView::Null,
        },
{
    match v {
        JsonValue::Object(es) => {
            assert(json_view(*v)->Object_0 =~= entry_views(es@));
            get_entry(es, key)
        },
        _ => None,
    }
}

/// The first element of an array value.
pub fn first<'a>(v: &'a JsonValue) -> (r: Option<&'a JsonValue>)
    ensures
        match view_first(json_view(*v)) {
            Some(x) => r matches Some(e) && json_view(*e) == x,
            None => r is None,
        },
{
    match v {
        JsonValue::Array(items) => {
            assert(json_view(*v)->Array_0 =~= json_views(items@));
            if items.len() > 0 {
                Some(&items[0])
            } else {
                None
            }
        },
        _ => None,
    }
}

/// The text of a string value.
pub fn as_str(v: &JsonValue) -> (r: Option<String>)
    ensures
        crate::text::opt_string_view(r) == view_str(json_view(*v)),
{
    match v {
        JsonValue::Str(s) => Some(s.clone()),
        _ => None,
    }
}


/// A copy of a JSON value.
pub fn clone_json(v: &JsonValue) -> (r: JsonValue)
    ensures
        json_view(r) == json_view(*v),
    decreases v,
{
    match v {
        JsonValue::Null => JsonValue::Null,
        JsonValue::Bool(b) => JsonValue::Bool(*b),
        JsonValue::Number(n) => JsonValue::Number(string_of(&chars_of(n.as_str()))),
        JsonValue::Str(s) => JsonValue::Str(string_of(&chars_of(s.as_str()))),
        JsonValue::Array(items) => {
            let mut out: Vec<JsonValue> = Vec::new();
            let mut i: usize = 0;
            while i < items.len()
                invariant
                    i <= items.len(),
                    json_views(out@) == json_views(items@).take(i as int),
                    *v is Array && (*v)->Array_0 == *items,
                decreases items.len() - i,
            {
                proof {
                    assert(decreases_to!(*v => (*v)->Array_0));
                    assert(decreases_to!(*items => items@));
                    assert(decreases_to!(items@ => items@[i as int]));
                }
                let c = clone_json(&items[i]);
                let ghost before = json_views(out@);
                out.push(c);
                assert(json_views(out@) =~= before.push(json_view(items@[i as int])));
                i = i + 1;
                assert(json_views(out@) =~= json_views(items@).take(i as int));
            }
            assert(json_views(items@).take(items.len() as int) =~= json_views(items@));
            assert(json_view(*v)->Array_0 =~= json_views(items@));
            json_array(out)
        },
        JsonValue::Object(entries) => {
            let mut out: Vec<(String, JsonValue)> = Vec::new();
            let mut i: usize = 0;
            while i < entries.len()
                invariant
                    i <= entries.len(),
                    entry_views(out@) == entry_views(entries@).take(i as int),
                    *v is Object && (*v)->Object_0 == *entries,
                decreases entries.len() - i,
            {
                proof {
                    assert(decreases_to!(*v => (*v)->Object_0));
                    assert(decreases_to!(*entries => entries@));
                    assert(decreases_to!(entries@ => entries@[i as int]));
                    assert(decreases_to!(entries@[i as int] => entries@[i as int].1));
                }
                let c = clone_json(&entries[i].1);
                let k = string_of(&chars_of(entries[i].0.as_str()));
                let ghost before = entry_views(out@);
                out.push((k, c));
                assert(entry_views(out@) =~= before.push((entries@[i as int].0@, json_view(entries@[i as int].1))));
                i = i + 1;
                assert(entry_views(out@) =~= entry_views(entries@).take(i as int));
            }
            assert(entry_views(entries@).take(entries.len() as int) =~= entry_views(entries@));
            assert(json_view(*v)->Object_0 =~= entry_views(entries@));
            json_object(out)
        },
    }
}


/// The object `{k1: v1}`.
pub fn obj1(k1: &str, v1: JsonValue) -> (r: JsonValue)
    ensures
        json_view(r) == JsonView::Object(seq![(k1@, json_view(v1))]),
{
    let ghost w1 = json_view(v1);
    let mut es: Vec<(String, JsonValue)> = Vec::new();
    es.push(entry(k1, v1));
    assert(entry_views(es@) =~= seq![(k1@, w1)]);
    json_object(es)
}

/// The object `{k1: v1, k2: v2}`.
pub fn obj2(k1: &str, v1: JsonValue, k2: &str, v2: JsonValue) -> (r: JsonValue)
    ensures
        json_view(r) == JsonView::Object(seq![(k1@, json_view(v1)), (k2@, json_view(v2))]),
{
    let ghost w1 = json_view(v1);
    let ghost w2 = json_view(v2);
    let mut es: Vec<(String, JsonValue)> = Vec::new();
    es.push(entry(k1, v1));
    es.push(entry(k2, v2));
    assert(entry_views(es@) =~= seq![(k1@, w1), (k2@, w2)]);
    json_object(es)
}

/// The object `{k1: v1, k2: v2, k3: v3}`.
pub fn obj3(k1: &str, v1: JsonValue, k2: &str, v2: JsonValue, k3: &str, v3: JsonValue) -> (r: JsonValue)
    ensures
        json_view(r) == JsonView::Object(seq![(k1@, json_view(v1)), (k2@, json_view(v2)), (k3@, json_view(v3))]),
{
    let ghost w1 = json_view(v1);
    let ghost w2 = json_view(v2);
    let ghost w3 = json_view(v3);
    let mut es: Vec<(String, JsonValue)> = Vec::new();
    es.push(entry(k1, v1));
    es.push(entry(k2, v2));
    es.push(entry(k3, v3));
    assert(entry_views(es@) =~= seq![(k1@, w1), (k2@, w2), (k3@, w3)]);
    json_object(es)
}

/// The object `{k1: v1, k2: v2, k3: v3, k4: v4}`.
pub fn obj4(
    k1: &str,
    v1: JsonValue,
    k2: &str,
    v2: JsonValue,
    k3: &str,
    v3: JsonValue,
    k4: &str,
    v4: JsonValue,
) -> (r: JsonValue)
    ensures
        json_view(r) == JsonView::Object(
            seq![(k1@, json_view(v1)), (k2@, json_view(v2)), (k3@, json_view(v3)), (k4@, json_view(v4))],
        ),
{
    let ghost w1 = json_view(v1);
    let ghost w2 = json_view(v2);
    let ghost w3 = json_view(v3);
    let ghost w4 = json_view(v4);
    let mut es: Vec<(String, JsonValue)> = Vec::new();
    es.push(entry(k1, v1));
    es.push(entry(k2, v2));
    es.push(entry(k3, v3));
    es.push(entry(k4, v4));
    assert(entry_views(es@) =~= seq![(k1@, w1), (k2@, w2), (k3@, w3), (k4@, w4)]);
    json_object(es)
}

/// The array `[v1]`.
pub fn arr1(v1: JsonValue) -> (r: JsonValue)
    ensures
        json_view(r) == JsonView::Array(seq![json_view(v1)]),
{
    let ghost w1 = json_view(v1);
    let mut items: Vec<JsonValue> = Vec::new();
    items.push(v1);
    assert(json_views(items@) =~= seq![w1]);
    json_array(items)
}

/// The array `[v1, v2]`.
pub fn arr2(v1: JsonValue, v2: JsonValue) -> (r: JsonValue)
    ensures
        json_view(r) == JsonView::Array(seq![json_view(v1), json_view(v2)]),
{
    let ghost w1 = json_view(v1);
    let ghost w2 = json_view(v2);
    let mut items: Vec<JsonValue> = Vec::new();
    items.push(v1);
    items.push(v2);
    assert(json_views(items@) =~= seq![w1, w2]);
    json_array(items)
}

} // verus!
