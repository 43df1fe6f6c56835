//! A plain model of YAML values, and the calls into serde_yml that parse
//! YAML text into it and print it back.
use vstd::prelude::*;
use crate::json::{JsonValue, JsonView, json_view};
use serde_yml::value::{Tag, TaggedValue};
use serde_yml::{Number, Value};
use crate::text::{chars_of, string_of};
use crate::url::detect::same_chars;
use crate::vault::frontmatter::{entry_index, lemma_entry_index, lemma_entry_index_is};

verus! {

/// A YAML value. Numbers keep the text serde_yml prints for them; tags
/// keep their text.
#[derive(Debug, PartialEq)]
pub enum YamlValue {
    Null,
    Bool(bool),
    Number(String),
    Text(String),
    Sequence(Vec<YamlValue>),
    Mapping(Vec<(YamlValue, YamlValue)>),
    Tagged(String, Box<YamlValue>),
}

/// The mathematical form of a YAML value: text as character sequences.
pub enum YamlView {
    Null,
    Bool(bool),
    Number(Seq<char>),
    Text(Seq<char>),
    Sequence(Seq<YamlView>),
    Mapping(Seq<(YamlView, YamlView)>),
    Tagged(Seq<char>, Box<YamlView>),
}

/// The view of a YAML value.
pub open spec fn yaml_view(v: YamlValue) -> YamlView
    decreases v,
{
    match v {
        YamlValue::Null => YamlView::Null,
        YamlValue::Bool(b) => YamlView::Bool(b),
        YamlValue::Number(n) => YamlView::Number(n@),
        YamlValue::Text(s) => YamlView::Text(s@),
        YamlValue::Sequence(items) => YamlView::Sequence(
            Seq::new(
                items@.len(),
                |i: int|
                    if 0 <= i < items@.len() {
                        yaml_view(items@[i])
                    } else {
                        YamlView::Null
                    },
            ),
        ),
        YamlValue::Mapping(es) => YamlView::Mapping(
            Seq::new(
                es@.len(),
                |i: int|
                    if 0 <= i < es@.len() {
                        (yaml_view(es@[i].0), yaml_view(es@[i].1))
                    } else {
                        (YamlView::Null, YamlView::Null)
                    },
            ),
        ),
        YamlValue::Tagged(t, inner) => YamlView::Tagged(t@, Box::new(yaml_view(*inner))),
    }
}

impl View for YamlValue {
    type V = YamlView;

    open spec fn view(&self) -> YamlView {
        yaml_view(*self)
    }
}

/// The views of the entries of a mapping.
pub open spec fn yaml_entries(es: Seq<(YamlValue, YamlValue)>) -> Seq<(YamlView, YamlView)> {
    Seq::new(es.len(), |i: int| (yaml_view(es[i].0), yaml_view(es[i].1)))
}

/// The views of a sequence of values.
pub open spec fn yaml_views(items: Seq<YamlValue>) -> Seq<YamlView> {
    Seq::new(items.len(), |i: int| yaml_view(items[i]))
}

/// The view of an optional value.
pub open spec fn opt_yaml_view(v: Option<YamlValue>) -> Option<YamlView> {
    match v {
        Some(x) => Some(yaml_view(x)),
        None => None,
    }
}

/// The value serde_yml parses `text` into (`from_str::<Value>`), if it
/// accepts the text.
pub uninterp spec fn yaml_of(text: Seq<char>) -> Option<YamlView>;

/// The text serde_yml prints for a value (`to_string`); empty when it
/// reports an error.
pub uninterp spec fn yaml_serialized(value: YamlView) -> Seq<char>;

/// A YAML value as serde_yml holds it.
#[verifier::external_type_specification]
#[verifier::external_body]
pub struct ExYamlValue(serde_yml::Value);

/// The library's form of a serde_yml value, variant for variant: a number
/// by its printed text, a mapping by its entries in order, a tag by its text.
#[verifier::external_body]
fn from_serde(v: Value) -> YamlValue {
    match v {
        Value::Null => YamlValue::Null,
        Value::Bool(b) => YamlValue::Bool(b),
        Value::Number(n) => YamlValue::Number(n.to_string()),
        Value::String(s) => YamlValue::Text(s),
        Value::Sequence(items) => YamlValue::Sequence(items.into_iter().map(from_serde).collect()),
        Value::Mapping(m) => YamlValue::Mapping(m.into_iter().map(|(k, x)| (from_serde(k), from_serde(x))).collect()),
        Value::Tagged(t) => YamlValue::Tagged(t.tag.string, Box::new(from_serde(t.value))),
    }
}

/// The serde_yml form of a library value, variant for variant: a number is
/// read back from its text (kept as a string when serde_yml cannot read it).
#[verifier::external_body]
fn to_serde(v: &YamlValue) -> Value {
    match v {
        YamlValue::Null => Value::Null,
        YamlValue::Bool(b) => Value::Bool(*b),
        YamlValue::Number(n) => n.parse::<Number>().map(Value::Number).unwrap_or_else(|_| Value::String(n.clone())),
        YamlValue::Text(s) => Value::String(s.clone()),
        YamlValue::Sequence(items) => Value::Sequence(items.iter().map(to_serde).collect()),
        YamlValue::Mapping(es) => Value::Mapping(es.iter().map(|(k, x)| (to_serde(k), to_serde(x))).collect()),
        YamlValue::Tagged(t, x) => Value::Tagged(Box::new(TaggedValue { tag: Tag { string: t.clone() }, value: to_serde(x) })),
    }
}

/// Parses `text` as YAML (serde_yml `from_str::<Value>`): the value serde_yml
/// reads, exactly when it accepts the text.
#[verifier::external_body]
pub(crate) fn parse_yaml(text: &str) -> (r: Option<YamlValue>)
    ensures
        opt_yaml_view(r) == yaml_of(text@),
{
    serde_yml::from_str::<serde_yml::Value>(text).ok().map(from_serde)
}

/// The YAML text of a value (serde_yml `to_string`), empty when serde_yml
/// reports an error.
#[verifier::external_body]
pub(crate) fn yaml_text(value: &YamlValue) -> (r: String)
    ensures
        r@ == yaml_serialized(value@),
{
    serde_yml::to_string(&to_serde(value)).unwrap_or_default()
}

/// The YAML form of a JSON value: numbers keep their text, strings become
/// text, arrays sequences and objects mappings keyed by text.
pub open spec fn json_as_yaml(j: JsonView) -> YamlView
    decreases j,
{
    match j {
        JsonView::Null => YamlView::Null,
        JsonView::Bool(b) => YamlView::Bool(b),
        JsonView::Number(n) => YamlView::Number(n),
        JsonView::Str(s) => YamlView::Text(s),
        JsonView::Array(items) => YamlView::Sequence(
            Seq::new(
                items.len(),
                |i: int|
                    if 0 <= i < items.len() {
                        json_as_yaml(items[i])
                    } else {
                        YamlView::Null
                    },
            ),
        ),
        JsonView::Object(es) => YamlView::Mapping(
            Seq::new(
                es.len(),
                |i: int|
                    if 0 <= i < es.len() {
                        (YamlView::Text(es[i].0), json_as_yaml(es[i].1))
                    } else {
                        (YamlView::Null, YamlView::Null)
                    },
            ),
        ),
    }
}

/// The YAML form of a JSON value.
pub fn yaml_from_json(j: &JsonValue) -> (r: YamlValue)
    ensures
        r@ == json_as_yaml(json_view(*j)),
    decreases j,
{
    match j {
        JsonValue::Null => YamlValue::Null,
        JsonValue::Bool(b) => YamlValue::Bool(*b),
        JsonValue::Number(n) => YamlValue::Number(string_of(&chars_of(n.as_str()))),
        JsonValue::Str(s) => YamlValue::Text(string_of(&chars_of(s.as_str()))),
        JsonValue::Array(items) => {
            let ghost target = json_as_yaml(json_view(*j))->Sequence_0;
            let mut out: Vec<YamlValue> = Vec::new();
            let mut i: usize = 0;
            while i < items.len()
                invariant
                    i <= items.len(),
                    out@.len() == i,
                    *j is Array && (*j)->Array_0 == *items,
                    target.len() == items@.len(),
                    forall|k: int| 0 <= k < items@.len() ==> #[trigger] target[k] == json_as_yaml(json_view(items@[k])),
                    yaml_views(out@) == target.take(i as int),
                decreases items.len() - i,
            {
                proof {
                    assert(decreases_to!(*j => (*j)->Array_0));
                    assert(decreases_to!(*items => items@));
                    assert(decreases_to!(items@ => items@[i as int]));
                }
                let c = yaml_from_json(&items[i]);
                let ghost before = yaml_views(out@);
                out.push(c);
                assert(yaml_views(out@) =~= before.push(yaml_view(c)));
                assert(target[i as int] == json_as_yaml(json_view(items@[i as int])));
                assert(target.take(i + 1) =~= target.take(i as int).push(target[i as int]));
                i = i + 1;
            }
            let r = YamlValue::Sequence(out);
            assert(target.take(i as int) =~= target);
            assert(yaml_view(r)->Sequence_0 =~= yaml_views(out@));
            r
        },
        JsonValue::Object(entries) => {
            let ghost target = json_as_yaml(json_view(*j))->Mapping_0;
            let mut out: Vec<(YamlValue, YamlValue)> = Vec::new();
            let mut i: usize = 0;
            while i < entries.len()
                invariant
                    i <= entries.len(),
                    out@.len() == i,
                    *j is Object && (*j)->Object_0 == *entries,
                    target.len() == entries@.len(),
                    forall|k: int|
                        0 <= k < entries@.len() ==> #[trigger] target[k] == (
                        YamlView::Text(entries@[k].0@),
                        json_as_yaml(json_view(entries@[k].1)),
                    ),
                    yaml_entries(out@) == target.take(i as int),
                decreases entries.len() - i,
            {
                proof {
                    assert(decreases_to!(*j => (*j)->Object_0));
                    assert(decreases_to!(*entries => entries@));
                    assert(decreases_to!(entries@ => entries@[i as int]));
                    assert(decreases_to!(entries@[i as int] => entries@[i as int].1));
                }
                let c = yaml_from_json(&entries[i].1);
                let k = YamlValue::Text(string_of(&chars_of(entries[i].0.as_str())));
                let ghost before = yaml_entries(out@);
                out.push((k, c));
                assert(yaml_entries(out@) =~= before.push((yaml_view(k), yaml_view(c))));
                assert(target.take(i + 1) =~= target.take(i as int).push(target[i as int]));
                i = i + 1;
            }
            let r = YamlValue::Mapping(out);
            assert(target.take(i as int) =~= target);
            assert(yaml_view(r)->Mapping_0 =~= yaml_entries(out@));
            r
        },
    }
}

/// Whether a key is the text `key`.
pub fn is_text_key(k: &YamlValue, key: &str) -> (r: bool)
    ensures
        r == (k@ == YamlView::Text(key@)),
{
    match k {
        YamlValue::Text(s) => same_chars(&chars_of(s.as_str()), &chars_of(key)),
        _ => false,
    }
}

/// The index of the first entry keyed by the text `key`.
pub(crate) fn find_text_key(es: &Vec<(YamlValue, YamlValue)>, key: &str) -> (r: Option<usize>)
    ensures
        match entry_index(yaml_entries(es@), YamlView::Text(key@)) {
            Some(i) => 0 <= i < es.len() && r == Some(i as usize),
            None => r is None,
        },
{
    let ghost t = YamlView::Text(key@);
    let mut i: usize = 0;
    while i < es.len()
        invariant
            i <= es.len(),
            t == YamlView::Text(key@),
            forall|j: int| 0 <= j < i ==> yaml_entries(es@)[j].0 != t,
        decreases es.len() - i,
    {
        if is_text_key(&es[i].0, key) {
            proof {
                lemma_entry_index_is(yaml_entries(es@), t, i as int);
            }
            return Some(i);
        }
        i = i + 1;
    }
    proof {
        lemma_entry_index_is(yaml_entries(es@), t, es.len() as int);
    }
    None
}

/// The value of the first entry keyed by the text `key`, when `v` is a
/// mapping that has one.
pub open spec fn yaml_lookup(v: YamlView, key: Seq<char>) -> Option<YamlView> {
    match v {
        YamlView::Mapping(es) => match entry_index(es, YamlView::Text(key)) {
            Some(i) => Some(es[i].1),
            None => None,
        },
        _ => None,
    }
}

/// The value keyed by the text `key` in a mapping.
pub fn yaml_get<'a>(v: &'a YamlValue, key: &str) -> (r: Option<&'a YamlValue>)
    ensures
        match r {
            Some(x) => yaml_lookup(v@, key@) == Some(x@),
            None => yaml_lookup(v@, key@) is None,
        },
{
    match v {
        YamlValue::Mapping(es) => {
            proof {
                assert(yaml_view(*v)->Mapping_0 =~= yaml_entries(es@));
                lemma_entry_index(yaml_entries(es@), YamlView::Text(key@));
            }
            match find_text_key(es, key) {
                Some(i) => Some(&es[i].1),
                None => None,
            }
        },
        _ => None,
    }
}

} // verus!
