//! JSON documents, read with `serde_json`. A parsed value is opaque to the
//! proofs; what it holds has a name, and the accessors say over that name
//! what they hand out.

use crate::error::option_view;
use vstd::prelude::*;

verus! {

/// `serde_json::Value`: a parsed JSON document or a part of one.
#[verifier::external_type_specification]
#[verifier::external_body]
pub struct ExValue(serde_json::Value);

/// `serde_json::Error`: why a text is no JSON document.
#[verifier::external_type_specification]
#[verifier::external_body]
pub struct ExError(serde_json::Error);

/// One step on the way into a JSON value: to the member of an object under
/// a key, or to the element of an array at an index.
pub enum JsonStep {
    Key(Seq<char>),
    Index(int),
}

/// What stands at a place in a JSON value, as far as the library reads it:
/// a string with its text, an integer that fits in 64 bits without sign,
/// an array with its length, or anything else.
pub enum JsonNode {
    Text(Seq<char>),
    Number(u64),
    List(nat),
    Other,
}

/// The places of a JSON value: for each path that leads to a value inside
/// it, what stands there.
pub type JsonNodes = Map<Seq<JsonStep>, JsonNode>;

/// What a `serde_json::Value` holds: for each path that leads to a value
/// inside it, what stands there. The empty path leads to the value itself.
pub uninterp spec fn json_nodes(value: serde_json::Value) -> Map<Seq<JsonStep>, JsonNode>;

/// What `serde_json::from_str` reads from a text: the places of the
/// document, or nothing where the text is no JSON document.
pub uninterp spec fn json_document(text: Seq<char>) -> Option<Map<Seq<JsonStep>, JsonNode>>;

/// The places below `step`, with the paths counted from there.
pub open spec fn below(nodes: JsonNodes, step: JsonStep) -> JsonNodes {
    Map::new(
        |path: Seq<JsonStep>| nodes.contains_key(seq![step] + path),
        |path: Seq<JsonStep>| nodes[seq![step] + path],
    )
}

/// What stands at `path`, if the path leads to a value.
pub open spec fn node_at(nodes: JsonNodes, path: Seq<JsonStep>) -> Option<JsonNode> {
    if nodes.contains_key(path) {
        Some(nodes[path])
    } else {
        None
    }
}

/// The text of the string at `path`, if a string stands there.
pub open spec fn text_at(nodes: JsonNodes, path: Seq<JsonStep>) -> Option<Seq<char>> {
    match node_at(nodes, path) {
        Some(JsonNode::Text(text)) => Some(text),
        _ => None,
    }
}

/// The number at `path`, if an integer that fits stands there.
pub open spec fn number_at(nodes: JsonNodes, path: Seq<JsonStep>) -> Option<u64> {
    match node_at(nodes, path) {
        Some(JsonNode::Number(number)) => Some(number),
        _ => None,
    }
}

/// The length of the array at `path`, if an array stands there.
pub open spec fn length_at(nodes: JsonNodes, path: Seq<JsonStep>) -> Option<nat> {
    match node_at(nodes, path) {
        Some(JsonNode::List(length)) => Some(length),
        _ => None,
    }
}

/// The text of the field `field` of the section `section`, where the value
/// has the section and the field is a string.
pub open spec fn section_text(nodes: JsonNodes, section: Seq<char>, field: Seq<char>) -> Option<
    Seq<char>,
> {
    if nodes.contains_key(seq![JsonStep::Key(section)]) {
        text_at(nodes, seq![JsonStep::Key(section), JsonStep::Key(field)])
    } else {
        None
    }
}

/// What stands at a path below a step is what stands at the longer path.
pub proof fn lemma_below(nodes: JsonNodes, step: JsonStep, path: Seq<JsonStep>)
    ensures
        node_at(below(nodes, step), path) == node_at(nodes, seq![step] + path),
        text_at(below(nodes, step), path) == text_at(nodes, seq![step] + path),
        number_at(below(nodes, step), path) == number_at(nodes, seq![step] + path),
        length_at(below(nodes, step), path) == length_at(nodes, seq![step] + path),
{
}

/// What stands under a key below a step stands under the step and the key.
pub proof fn lemma_below_key(nodes: JsonNodes, step: JsonStep, key: Seq<char>)
    ensures
        text_at(below(nodes, step), seq![JsonStep::Key(key)]) == text_at(
            nodes,
            seq![step, JsonStep::Key(key)],
        ),
        number_at(below(nodes, step), seq![JsonStep::Key(key)]) == number_at(
            nodes,
            seq![step, JsonStep::Key(key)],
        ),
{
    lemma_below(nodes, step, seq![JsonStep::Key(key)]);
    assert(seq![step] + seq![JsonStep::Key(key)] =~= seq![step, JsonStep::Key(key)]);
}

/// What stands under a key below two steps stands under the steps and the
/// key.
pub proof fn lemma_below_two(nodes: JsonNodes, first: JsonStep, second: JsonStep, key: Seq<char>)
    ensures
        text_at(below(below(nodes, first), second), seq![JsonStep::Key(key)]) == text_at(
            nodes,
            seq![first, second, JsonStep::Key(key)],
        ),
        number_at(below(below(nodes, first), second), seq![JsonStep::Key(key)]) == number_at(
            nodes,
            seq![first, second, JsonStep::Key(key)],
        ),
{
    lemma_below_key(below(nodes, first), second, key);
    lemma_below(nodes, first, seq![second, JsonStep::Key(key)]);
    assert(seq![first] + seq![second, JsonStep::Key(key)] =~= seq![
        first,
        second,
        JsonStep::Key(key),
    ]);
}

/// What stands at the start of the places below a step stands at the step.
pub proof fn lemma_below_start(nodes: JsonNodes, step: JsonStep)
    ensures
        node_at(below(nodes, step), Seq::empty()) == node_at(nodes, seq![step]),
        length_at(below(nodes, step), Seq::empty()) == length_at(nodes, seq![step]),
{
    lemma_below(nodes, step, Seq::empty());
    assert(seq![step] + Seq::<JsonStep>::empty() =~= seq![step]);
}

/// `serde_json::from_str` for a `Value`: the document that `text` holds,
/// or the reason why it holds none. Which texts are documents, and what a
/// document holds, is a function of the text.
#[verifier::external_body]
pub(crate) fn parse(text: &str) -> (r: std::result::Result<serde_json::Value, serde_json::Error>)
    ensures
        r is Ok <==> json_document(text@) is Some,
        r matches Ok(value) ==> Some(json_nodes(value)) == json_document(text@),
{
    serde_json::from_str(text)
}

/// `Value::get` with a key: the member of an object under `key`; nothing
/// if the value is no object or has no such member. The member holds what
/// the value holds below the key.
#[verifier::external_body]
pub(crate) fn member<'a>(value: &'a serde_json::Value, key: &str) -> (found: Option<
    &'a serde_json::Value,
>)
    ensures
        found is Some <==> json_nodes(*value).contains_key(seq![JsonStep::Key(key@)]),
        found matches Some(m) ==> json_nodes(*m) == below(
            json_nodes(*value),
            JsonStep::Key(key@),
        ),
{
    value.get(key)
}

/// `Value::as_str`: the text of a string; nothing if the value is no
/// string.
#[verifier::external_body]
pub(crate) fn text_of(value: &serde_json::Value) -> (text: Option<&str>)
    ensures
        match text {
            Some(t) => json_nodes(*value)[Seq::empty()] == JsonNode::Text(t@),
            None => !(json_nodes(*value)[Seq::empty()] is Text),
        },
{
    value.as_str()
}

/// `Value::as_u64`: the number of an integer that fits; nothing if the
/// value is no such integer.
#[verifier::external_body]
pub(crate) fn number_of(value: &serde_json::Value) -> (number: Option<u64>)
    ensures
        match number {
            Some(n) => json_nodes(*value)[Seq::empty()] == JsonNode::Number(n),
            None => !(json_nodes(*value)[Seq::empty()] is Number),
        },
{
    value.as_u64()
}

/// `Value::as_array`: the elements of an array; nothing if the value is
/// no array. Each element holds what the value holds below its index.
#[verifier::external_body]
pub(crate) fn elements_of(value: &serde_json::Value) -> (elements: Option<
    &Vec<serde_json::Value>,
>)
    ensures
        match elements {
            Some(list) => json_nodes(*value)[Seq::empty()] == JsonNode::List(list@.len())
                && forall|i: int|
                0 <= i < list@.len() ==> json_nodes(#[trigger] list@[i]) == below(
                    json_nodes(*value),
                    JsonStep::Index(i),
                ),
            None => !(json_nodes(*value)[Seq::empty()] is List),
        },
{
    value.as_array()
}

/// The text of the string member `key` of `value`, if there is one.
pub(crate) fn text_member(value: &serde_json::Value, key: &str) -> (text: Option<String>)
    ensures
        option_view(text) == text_at(json_nodes(*value), seq![JsonStep::Key(key@)]),
{
    proof {
        lemma_below(json_nodes(*value), JsonStep::Key(key@), Seq::empty());
        assert(seq![JsonStep::Key(key@)] + Seq::<JsonStep>::empty() =~= seq![
            JsonStep::Key(key@),
        ]);
    }
    match member(value, key) {
        Some(found) => match text_of(found) {
            Some(text) => Some(text.to_string()),
            None => None,
        },
        None => None,
    }
}

/// The number of the integer member `key` of `value`, if there is one.
pub(crate) fn number_member(value: &serde_json::Value, key: &str) -> (number: Option<u64>)
    ensures
        number == number_at(json_nodes(*value), seq![JsonStep::Key(key@)]),
{
    proof {
        lemma_below(json_nodes(*value), JsonStep::Key(key@), Seq::empty());
        assert(seq![JsonStep::Key(key@)] + Seq::<JsonStep>::empty() =~= seq![
            JsonStep::Key(key@),
        ]);
    }
    match member(value, key) {
        Some(found) => number_of(found),
        None => None,
    }
}

} // verus!
