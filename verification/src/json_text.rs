//! Reading JSON text.
use crate::json::{field, fields, lemma_array_view, lemma_object_view, trees, Json, Member, Tree};
use vstd::prelude::*;

verus! {

/// A JSON value of `serde_json`.
#[verifier::external_type_specification]
#[verifier::external_body]
pub struct ExValue(serde_json::Value);

/// What a JSON value of `serde_json` holds.
pub uninterp spec fn value_tree(value: serde_json::Value) -> Tree;

/// What `serde_json` reads from a text: a value, or a complaint.
pub uninterp spec fn parsed_json(text: Seq<char>) -> Result<Tree, Seq<char>>;

/// The outermost layer of a JSON value.
pub enum JsonLayer {
    Null,
    Bool(bool),
    /// A number as an unsigned and as a signed integer, where it is one, and as text.
    Number(Option<u64>, Option<i64>, String),
    Text(String),
    Array(Vec<serde_json::Value>),
    Object(Vec<(String, serde_json::Value)>),
}

/// A number that is given in three forms.
pub open spec fn number_tree(unsigned: Option<u64>, signed: Option<i64>, text: Seq<char>) -> Tree {
    match unsigned {
        Some(n) => Tree::Number(n as int),
        None => match signed {
            Some(n) => Tree::Number(n as int),
            None => Tree::Decimal(text),
        },
    }
}

/// The value whose outermost layer this is.
pub open spec fn layer_tree(layer: JsonLayer) -> Tree {
    match layer {
        JsonLayer::Null => Tree::Null,
        JsonLayer::Bool(b) => Tree::Bool(b),
        JsonLayer::Number(unsigned, signed, text) => number_tree(unsigned, signed, text@),
        JsonLayer::Text(s) => Tree::Text(s@),
        JsonLayer::Array(items) => Tree::Array(
            Seq::new(items@.len(), |i: int| value_tree(items@[i])),
        ),
        JsonLayer::Object(members) => Tree::Object(
            Seq::new(members@.len(), |i: int| field(members@[i].0@, value_tree(members@[i].1))),
        ),
    }
}

/// `serde_json::from_str` into a `serde_json::Value`. What it reads is a function of
/// the text alone, and so is what it complains of.
#[verifier::external_body]
fn read_value(text: &str) -> (r: Result<serde_json::Value, String>)
    ensures
        parsed_json(text@) == (match r {
            Ok(v) => Ok(value_tree(v)),
            Err(e) => Err(e@),
        }),
{
    serde_json::from_str(text).map_err(|e: serde_json::Error| e.to_string())
}

/// Takes the variants of `serde_json::Value` apart, and gives a `serde_json::Number`
/// by `as_u64`, `as_i64` and its text: a value holds what its outermost layer holds.
#[verifier::external_body]
fn outer_layer(value: serde_json::Value) -> (r: JsonLayer)
    ensures
        value_tree(value) == layer_tree(r),
{
    match value {
        serde_json::Value::Null => JsonLayer::Null,
        serde_json::Value::Bool(b) => JsonLayer::Bool(b),
        serde_json::Value::Number(n) => JsonLayer::Number(n.as_u64(), n.as_i64(), n.to_string()),
        serde_json::Value::String(s) => JsonLayer::Text(s),
        serde_json::Value::Array(items) => JsonLayer::Array(items),
        serde_json::Value::Object(members) => JsonLayer::Object(members.into_iter().collect()),
    }
}

fn to_json(value: serde_json::Value) -> (r: Json)
    ensures
        r@ == value_tree(value),
    decreases value_tree(value),
{
    broadcast use {lemma_array_view, lemma_object_view};

    let ghost whole = value_tree(value);
    match outer_layer(value) {
        JsonLayer::Null => Json::Null,
        JsonLayer::Bool(b) => Json::Bool(b),
        JsonLayer::Number(Some(n), _, _) => Json::UInt(n),
        JsonLayer::Number(None, Some(n), _) => Json::Int(n),
        JsonLayer::Number(None, None, s) => Json::Decimal(s),
        JsonLayer::Text(s) => Json::Text(s),
        JsonLayer::Array(items) => {
            let ghost all = items@;
            let ghost parts = Seq::new(all.len(), |i: int| value_tree(all[i]));
            let mut rest = items;
            let mut out: Vec<Json> = Vec::new();
            while rest.len() > 0
                invariant
                    whole == Tree::Array(parts),
                    parts == Seq::new(all.len(), |i: int| value_tree(all[i])),
                    out@.len() + rest@.len() == all.len(),
                    rest@ == all.skip(out@.len() as int),
                    whole == value_tree(value),
                    forall|j: int| 0 <= j < out@.len() ==> (#[trigger] out@[j])@ == parts[j],
                decreases rest@.len(),
            {
                let ghost k = out@.len() as int;
                let item = rest.remove(0);
                assert(item == all[k]);
                assert(parts[k] == value_tree(item));
                assert(whole->Array_0 == parts);
                assert(decreases_to!(whole => whole->Array_0));
                assert(decreases_to!(whole->Array_0 => whole->Array_0[k]));
                out.push(to_json(item));
                assert(rest@ =~= all.skip(k + 1));
            }
            assert(trees(out@) =~= parts);
            Json::Array(out)
        },
        JsonLayer::Object(members) => {
            let ghost all = members@;
            let ghost parts = Seq::new(
                all.len(),
                |i: int| field(all[i].0@, value_tree(all[i].1)),
            );
            let mut rest = members;
            let mut out: Vec<Member> = Vec::new();
            while rest.len() > 0
                invariant
                    whole == Tree::Object(parts),
                    parts == Seq::new(
                        all.len(),
                        |i: int| field(all[i].0@, value_tree(all[i].1)),
                    ),
                    out@.len() + rest@.len() == all.len(),
                    rest@ == all.skip(out@.len() as int),
                    whole == value_tree(value),
                    forall|j: int|
                        0 <= j < out@.len() ==> field(
                            (#[trigger] out@[j]).name@,
                            out@[j].value@,
                        ) == parts[j],
                decreases rest@.len(),
            {
                let ghost k = out@.len() as int;
                let (name, value) = rest.remove(0);
                assert(parts[k] == field(name@, value_tree(value)));
                assert(whole->Object_0 == parts);
                assert(decreases_to!(whole => whole->Object_0));
                assert(decreases_to!(whole->Object_0 => whole->Object_0[k]));
                assert(decreases_to!(whole->Object_0[k] => whole->Object_0[k].value));
                out.push(Member { name, value: to_json(value) });
                assert(rest@ =~= all.skip(k + 1));
            }
            assert(fields(out@) =~= parts);
            Json::Object(out)
        },
    }
}

/// Reads JSON text.
pub fn parse_json(text: &str) -> (r: Result<Json, String>)
    ensures
        parsed_json(text@) == (match r {
            Ok(v) => Ok(v@),
            Err(e) => Err(e@),
        }),
{
    match read_value(text) {
        Ok(value) => Ok(to_json(value)),
        Err(e) => Err(e),
    }
}

} // verus!
