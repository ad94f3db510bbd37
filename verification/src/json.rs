//! JSON values as the wire form uses them: a tree of plain values that the
//! parser of `serde_json` produces, and the compact text that its writer
//! gives for such a tree.

use vstd::prelude::*;

verus! {

/// A parsed JSON document of `serde_json`, carried through unread.
#[verifier::external_type_specification]
#[verifier::external_body]
pub struct ExOutsideValue(serde_json::Value);

/// The mathematical content of a [`JsonValue`].
pub enum JsonTree {
    Null,
    Bool(bool),
    /// A number; `None` where it is not an integer of 64 signed bits.
    Number(Option<int>),
    Text(Seq<char>),
    Array(Seq<JsonTree>),
    /// The members in order, each a key and its value.
    Object(Seq<(Seq<char>, JsonTree)>),
}

/// A JSON value held as plain data.
#[derive(Debug)]
pub enum JsonValue {
    Null,
    Bool(bool),
    /// A number; `None` where it is not an integer of 64 signed bits.
    Number(Option<i64>),
    Text(String),
    Array(Vec<JsonValue>),
    /// The members in order, each a key and its value.
    Object(Vec<(String, JsonValue)>),
}

/// The content of a number.
pub open spec fn number_view(n: Option<i64>) -> Option<int> {
    match n {
        Some(i) => Some(i as int),
        None => None,
    }
}

/// The contents of the first `n` items of an array.
pub open spec fn item_trees(items: Vec<JsonValue>, n: nat) -> Seq<JsonTree>
    decreases items, n,
{
    if 0 < n <= items.len() {
        item_trees(items, (n - 1) as nat).push(tree_of(items[n - 1]))
    } else {
        Seq::empty()
    }
}

/// The contents of the first `n` members of an object.
pub open spec fn member_trees(members: Vec<(String, JsonValue)>, n: nat) -> Seq<
    (Seq<char>, JsonTree),
>
    decreases members, n,
{
    if 0 < n <= members.len() {
        member_trees(members, (n - 1) as nat).push(
            (members[n - 1].0@, tree_of(members[n - 1].1)),
        )
    } else {
        Seq::empty()
    }
}

/// The content of a value.
pub open spec fn tree_of(value: JsonValue) -> JsonTree
    decreases value,
{
    match value {
        JsonValue::Null => JsonTree::Null,
        JsonValue::Bool(b) => JsonTree::Bool(b),
        JsonValue::Number(n) => JsonTree::Number(number_view(n)),
        JsonValue::Text(s) => JsonTree::Text(s@),
        JsonValue::Array(items) => JsonTree::Array(item_trees(items, items.len() as nat)),
        JsonValue::Object(members) => JsonTree::Object(
            member_trees(members, members.len() as nat),
        ),
    }
}

impl View for JsonValue {
    type V = JsonTree;

    open spec fn view(&self) -> JsonTree {
        tree_of(*self)
    }
}

/// The first `n` items of an array have their views at their places.
pub proof fn lemma_item_trees(items: Vec<JsonValue>, n: nat)
    requires
        n <= items.len(),
    ensures
        item_trees(items, n).len() == n,
        forall|k: int| 0 <= k < n ==> (#[trigger] item_trees(items, n)[k]) == items[k]@,
    decreases n,
{
    if n > 0 {
        lemma_item_trees(items, (n - 1) as nat);
    }
}

/// The first `n` members of an object have their keys and the views of
/// their values at their places.
pub proof fn lemma_member_trees(members: Vec<(String, JsonValue)>, n: nat)
    requires
        n <= members.len(),
    ensures
        member_trees(members, n).len() == n,
        forall|k: int|
            0 <= k < n ==> (#[trigger] member_trees(members, n)[k]) == (
                members[k].0@,
                members[k].1@,
            ),
    decreases n,
{
    if n > 0 {
        lemma_member_trees(members, (n - 1) as nat);
    }
}

/// What `serde_json::from_str` reads from `text` as a `serde_json::Value`,
/// or `None` where it reports an error.
pub uninterp spec fn json_parse(text: Seq<char>) -> Option<JsonTree>;

/// What a `serde_json::Value` holds: nothing, a truth value, a number as
/// `serde_json::Number::as_i64` gives it, a string, the items of an array,
/// or the members of an object in the order in which `serde_json::Map::iter`
/// yields them.
pub uninterp spec fn outside_tree(value: serde_json::Value) -> JsonTree;

/// How one character stands inside a JSON string literal: a backslash in
/// front of a double quote or a backslash, the short escape for backspace,
/// tab, line feed, form feed and carriage return, `\u00` and two lower-case
/// hexadecimal digits for any other character below the space, and every
/// other character as it is.
pub open spec fn escaped(c: char) -> Seq<char> {
    if c == '"' {
        seq!['\\', '"']
    } else if c == '\\' {
        seq!['\\', '\\']
    } else if c == '\u{8}' {
        seq!['\\', 'b']
    } else if c == '\t' {
        seq!['\\', 't']
    } else if c == '\n' {
        seq!['\\', 'n']
    } else if c == '\u{c}' {
        seq!['\\', 'f']
    } else if c == '\r' {
        seq!['\\', 'r']
    } else if (c as u32) < 0x20 {
        seq![
            '\\',
            'u',
            '0',
            '0',
            "0123456789abcdef"@[(c as u32) as int / 16],
            "0123456789abcdef"@[(c as u32) as int % 16],
        ]
    } else {
        seq![c]
    }
}

/// The characters of `text`, each as it stands inside a JSON string literal.
pub open spec fn escaped_text(text: Seq<char>) -> Seq<char>
    decreases text.len(),
{
    if text.len() == 0 {
        Seq::empty()
    } else {
        escaped_text(text.drop_last()) + escaped(text.last())
    }
}

/// The JSON string literal for `text`: its characters, escaped, between
/// double quotes.
pub open spec fn json_quoted(text: Seq<char>) -> Seq<char> {
    seq!['"'] + escaped_text(text) + seq!['"']
}

/// Parses `text` with `serde_json::from_str` into a `serde_json::Value`.
/// The contract names the outcome: the call succeeds exactly on the texts
/// that `json_parse` accepts, and the value then holds the tree it names.
#[verifier::external_body]
fn parse_outside(text: &str) -> (r: Result<serde_json::Value, serde_json::Error>)
    ensures
        r is Ok <==> json_parse(text@) is Some,
        r matches Ok(value) ==> json_parse(text@) == Some(outside_tree(value)),
{
    serde_json::from_str::<serde_json::Value>(text)
}

/// Copies a `serde_json::Value` into plain data, variant by variant: a
/// number through `serde_json::Number::as_i64`, the members of an object in
/// the order in which `serde_json::Map::iter` yields them.
#[verifier::external_body]
fn value_from_outside(value: &serde_json::Value) -> (r: JsonValue)
    ensures
        r@ == outside_tree(*value),
{
    match value {
        serde_json::Value::Null => JsonValue::Null,
        serde_json::Value::Bool(b) => JsonValue::Bool(*b),
        serde_json::Value::Number(n) => JsonValue::Number(n.as_i64()),
        serde_json::Value::String(s) => JsonValue::Text(s.clone()),
        serde_json::Value::Array(items) => JsonValue::Array(
            items.iter().map(value_from_outside).collect(),
        ),
        serde_json::Value::Object(members) => JsonValue::Object(
            members.iter().map(|(k, v)| (k.clone(), value_from_outside(v))).collect(),
        ),
    }
}

/// Writes `text` as a JSON string literal with `serde_json::to_string`: the
/// text between double quotes, with the escapes of its compact writer. That
/// call fails only where a `Serialize` impl fails or a map has a key that is
/// no string; for a string neither can happen, so the contract promises the
/// literal.
#[verifier::external_body]
pub(crate) fn quote_text(text: &str) -> (r: Result<String, serde_json::Error>)
    ensures
        r is Ok,
        r matches Ok(quoted) ==> quoted@ == json_quoted(text@),
{
    serde_json::to_string(text)
}

/// Parses `text` as JSON.
pub fn parse_json(text: &str) -> (r: Result<JsonValue, serde_json::Error>)
    ensures
        r is Ok <==> json_parse(text@) is Some,
        r matches Ok(value) ==> json_parse(text@) == Some(value@),
{
    match parse_outside(text) {
        Ok(outside) => Ok(value_from_outside(&outside)),
        Err(error) => Err(error),
    }
}

/// The decimal digit `d` as text.
pub open spec fn digit_text(d: int) -> Seq<char> {
    if d == 0 {
        "0"@
    } else if d == 1 {
        "1"@
    } else if d == 2 {
        "2"@
    } else if d == 3 {
        "3"@
    } else if d == 4 {
        "4"@
    } else if d == 5 {
        "5"@
    } else if d == 6 {
        "6"@
    } else if d == 7 {
        "7"@
    } else if d == 8 {
        "8"@
    } else {
        "9"@
    }
}

/// The decimal digits of `n`, without leading zeros.
pub open spec fn natural_text(n: nat) -> Seq<char>
    decreases n,
{
    if n < 10 {
        digit_text(n as int)
    } else {
        natural_text(n / 10) + digit_text((n % 10) as int)
    }
}

/// The integer `n` in decimal, with a minus sign where it is negative.
pub open spec fn decimal_text(n: int) -> Seq<char> {
    if n < 0 {
        "-"@ + natural_text((-n) as nat)
    } else {
        natural_text(n as nat)
    }
}

/// The texts in `parts`, in order, with a comma between neighbours.
pub open spec fn join_texts(parts: Seq<Seq<char>>) -> Seq<char>
    decreases parts.len(),
{
    if parts.len() == 0 {
        Seq::empty()
    } else if parts.len() == 1 {
        parts[0]
    } else {
        join_texts(parts.drop_last()) + ","@ + parts.last()
    }
}

/// The texts of the items of an array.
pub open spec fn item_texts(items: Seq<JsonTree>) -> Seq<Seq<char>>
    decreases items,
{
    Seq::new(
        items.len(),
        |i: int|
            if 0 <= i < items.len() {
                json_text(items[i])
            } else {
                Seq::empty()
            },
    )
}

/// The texts of the members of an object: the key as a string literal, a
/// colon, and the value.
pub open spec fn member_texts(members: Seq<(Seq<char>, JsonTree)>) -> Seq<Seq<char>>
    decreases members,
{
    Seq::new(
        members.len(),
        |i: int|
            if 0 <= i < members.len() {
                json_quoted(members[i].0) + ":"@ + json_text(members[i].1)
            } else {
                Seq::empty()
            },
    )
}

/// The compact JSON text of `tree`: no white space, the members of an
/// object in their order. A number without a value is written as `null`.
pub open spec fn json_text(tree: JsonTree) -> Seq<char>
    decreases tree,
{
    match tree {
        JsonTree::Null => "null"@,
        JsonTree::Bool(b) => if b {
            "true"@
        } else {
            "false"@
        },
        JsonTree::Number(n) => match n {
            Some(i) => decimal_text(i),
            None => "null"@,
        },
        JsonTree::Text(s) => json_quoted(s),
        JsonTree::Array(items) => "["@ + join_texts(item_texts(items)) + "]"@,
        JsonTree::Object(members) => "{"@ + join_texts(member_texts(members)) + "}"@,
    }
}

/// Joining one more part: the text so far, a comma unless it is the first
/// part, and the part.
pub proof fn lemma_join_next(parts: Seq<Seq<char>>, n: int)
    requires
        0 <= n < parts.len(),
    ensures
        join_texts(parts.take(n + 1)) == if n == 0 {
            parts[0]
        } else {
            join_texts(parts.take(n)) + ","@ + parts[n]
        },
{
    let longer = parts.take(n + 1);
    assert(longer.last() == parts[n]);
    assert(longer.drop_last() =~= parts.take(n));
    if n == 0 {
        assert(longer[0] == parts[0]);
    }
}

/// The view of an array: the views of its items, in order.
pub proof fn lemma_array_view(value: JsonValue)
    requires
        value is Array,
    ensures
        value@ is Array,
        value@->Array_0.len() == value->Array_0.len(),
        forall|k: int|
            0 <= k < value->Array_0.len() ==> (#[trigger] value@->Array_0[k])
                == value->Array_0[k]@,
{
    lemma_item_trees(value->Array_0, value->Array_0.len() as nat);
}

/// The view of an object: the keys and the views of the values, in order.
pub proof fn lemma_object_view(value: JsonValue)
    requires
        value is Object,
    ensures
        value@ is Object,
        value@->Object_0.len() == value->Object_0.len(),
        forall|k: int|
            0 <= k < value->Object_0.len() ==> (#[trigger] value@->Object_0[k]) == (
                value->Object_0[k].0@,
                value->Object_0[k].1@,
            ),
{
    lemma_member_trees(value->Object_0, value->Object_0.len() as nat);
}

} // verus!
