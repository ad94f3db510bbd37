//! The wire form of a message: a JSON object whose members are the fields
//! of the message under fixed names, the empty ones left out.

use crate::error::{ends_in_digit, json_error_words, WatcherError};
use crate::json::{
    join_texts, json_parse, json_quoted, json_text, lemma_array_view, lemma_join_next,
    lemma_member_trees, lemma_object_view, member_texts, member_trees, parse_json, quote_text,
    JsonTree, JsonValue,
};
use crate::message::{Message, MessageView, RuleView, UpdateType};
use vstd::prelude::*;
use vstd::utf8::{decode_utf8, encode_utf8, encode_utf8_decode_utf8, encode_utf8_valid_utf8, valid_utf8};

verus! {

/// The name of a mutation kind on the wire.
pub open spec fn kind_name(method: UpdateType) -> Seq<char> {
    match method {
        UpdateType::Update => "Update"@,
        UpdateType::UpdateForAddPolicy => "UpdateForAddPolicy"@,
        UpdateType::UpdateForRemovePolicy => "UpdateForRemovePolicy"@,
        UpdateType::UpdateForRemoveFilteredPolicy => "UpdateForRemoveFilteredPolicy"@,
        UpdateType::UpdateForSavePolicy => "UpdateForSavePolicy"@,
        UpdateType::UpdateForAddPolicies => "UpdateForAddPolicies"@,
        UpdateType::UpdateForRemovePolicies => "UpdateForRemovePolicies"@,
        UpdateType::UpdateForUpdatePolicy => "UpdateForUpdatePolicy"@,
        UpdateType::UpdateForUpdatePolicies => "UpdateForUpdatePolicies"@,
    }
}

/// The mutation kind that `name` stands for, if any.
pub open spec fn kind_named(name: Seq<char>) -> Option<UpdateType> {
    if name == "Update"@ {
        Some(UpdateType::Update)
    } else if name == "UpdateForAddPolicy"@ {
        Some(UpdateType::UpdateForAddPolicy)
    } else if name == "UpdateForRemovePolicy"@ {
        Some(UpdateType::UpdateForRemovePolicy)
    } else if name == "UpdateForRemoveFilteredPolicy"@ {
        Some(UpdateType::UpdateForRemoveFilteredPolicy)
    } else if name == "UpdateForSavePolicy"@ {
        Some(UpdateType::UpdateForSavePolicy)
    } else if name == "UpdateForAddPolicies"@ {
        Some(UpdateType::UpdateForAddPolicies)
    } else if name == "UpdateForRemovePolicies"@ {
        Some(UpdateType::UpdateForRemovePolicies)
    } else if name == "UpdateForUpdatePolicy"@ {
        Some(UpdateType::UpdateForUpdatePolicy)
    } else if name == "UpdateForUpdatePolicies"@ {
        Some(UpdateType::UpdateForUpdatePolicies)
    } else {
        None
    }
}

/// Every mutation kind is found again under its name.
pub proof fn lemma_kind_name_round_trip(method: UpdateType)
    ensures
        kind_named(kind_name(method)) == Some(method),
{
    reveal_strlit("Update");
    reveal_strlit("UpdateForAddPolicy");
    reveal_strlit("UpdateForRemovePolicy");
    reveal_strlit("UpdateForRemoveFilteredPolicy");
    reveal_strlit("UpdateForSavePolicy");
    reveal_strlit("UpdateForAddPolicies");
    reveal_strlit("UpdateForRemovePolicies");
    reveal_strlit("UpdateForUpdatePolicy");
    reveal_strlit("UpdateForUpdatePolicies");
    assert("Update"@.len() == 6);
    assert("UpdateForAddPolicy"@.len() == 18);
    assert("UpdateForRemovePolicy"@.len() == 21);
    assert("UpdateForRemoveFilteredPolicy"@.len() == 29);
    assert("UpdateForSavePolicy"@.len() == 19);
    assert("UpdateForAddPolicies"@.len() == 20);
    assert("UpdateForRemovePolicies"@.len() == 23);
    assert("UpdateForUpdatePolicy"@.len() == 21);
    assert("UpdateForUpdatePolicies"@.len() == 23);
    assert("UpdateForRemovePolicy"@[9] == 'R');
    assert("UpdateForUpdatePolicy"@[9] == 'U');
    assert("UpdateForRemovePolicies"@[9] == 'R');
    assert("UpdateForUpdatePolicies"@[9] == 'U');
}

/// Whether `text` reads `literal`.
fn is_text(text: &String, literal: &str) -> (r: bool)
    ensures
        r == (text@ == literal@),
{
    let wanted = String::from_str(literal);
    *text == wanted
}

impl UpdateType {
    /// The name of this kind on the wire.
    pub fn to_string(&self) -> (name: String)
        ensures
            name@ == kind_name(*self),
    {
        match self {
            UpdateType::Update => String::from_str("Update"),
            UpdateType::UpdateForAddPolicy => String::from_str("UpdateForAddPolicy"),
            UpdateType::UpdateForRemovePolicy => String::from_str("UpdateForRemovePolicy"),
            UpdateType::UpdateForRemoveFilteredPolicy => String::from_str(
                "UpdateForRemoveFilteredPolicy",
            ),
            UpdateType::UpdateForSavePolicy => String::from_str("UpdateForSavePolicy"),
            UpdateType::UpdateForAddPolicies => String::from_str("UpdateForAddPolicies"),
            UpdateType::UpdateForRemovePolicies => String::from_str("UpdateForRemovePolicies"),
            UpdateType::UpdateForUpdatePolicy => String::from_str("UpdateForUpdatePolicy"),
            UpdateType::UpdateForUpdatePolicies => String::from_str("UpdateForUpdatePolicies"),
        }
    }

    /// The kind that `name` stands for on the wire, if any.
    pub fn from_name(name: &String) -> (method: Option<UpdateType>)
        ensures
            method == kind_named(name@),
    {
        if is_text(name, "Update") {
            Some(UpdateType::Update)
        } else if is_text(name, "UpdateForAddPolicy") {
            Some(UpdateType::UpdateForAddPolicy)
        } else if is_text(name, "UpdateForRemovePolicy") {
            Some(UpdateType::UpdateForRemovePolicy)
        } else if is_text(name, "UpdateForRemoveFilteredPolicy") {
            Some(UpdateType::UpdateForRemoveFilteredPolicy)
        } else if is_text(name, "UpdateForSavePolicy") {
            Some(UpdateType::UpdateForSavePolicy)
        } else if is_text(name, "UpdateForAddPolicies") {
            Some(UpdateType::UpdateForAddPolicies)
        } else if is_text(name, "UpdateForRemovePolicies") {
            Some(UpdateType::UpdateForRemovePolicies)
        } else if is_text(name, "UpdateForUpdatePolicy") {
            Some(UpdateType::UpdateForUpdatePolicy)
        } else if is_text(name, "UpdateForUpdatePolicies") {
            Some(UpdateType::UpdateForUpdatePolicies)
        } else {
            None
        }
    }
}

/// The members of a JSON object: keys with their values, in order.
pub type Members = Seq<(Seq<char>, JsonTree)>;

/// A rule on the wire: the array of its fields.
pub open spec fn rule_tree(rule: RuleView) -> JsonTree {
    JsonTree::Array(Seq::new(rule.len(), |i: int| JsonTree::Text(rule[i])))
}

/// A list of rules on the wire: the array of the rules.
pub open spec fn rules_tree(rules: Seq<RuleView>) -> JsonTree {
    JsonTree::Array(Seq::new(rules.len(), |i: int| rule_tree(rules[i])))
}

/// One member under `key`, or none where the field is empty.
pub open spec fn optional_member(present: bool, key: Seq<char>, value: JsonTree) -> Members {
    if present {
        seq![(key, value)]
    } else {
        Seq::empty()
    }
}

/// The JSON object that carries `m`: the kind and the publisher always,
/// every other field only where it is not empty, and the field index only
/// where it is not zero.
pub open spec fn message_tree(m: MessageView) -> JsonTree {
    JsonTree::Object(
        seq![("Method"@, JsonTree::Text(kind_name(m.method)))] + seq![
            ("ID"@, JsonTree::Text(m.id)),
        ] + optional_member(m.sec.len() > 0, "Sec"@, JsonTree::Text(m.sec))
            + optional_member(m.ptype.len() > 0, "Ptype"@, JsonTree::Text(m.ptype))
            + optional_member(m.old_rule.len() > 0, "OldRule"@, rule_tree(m.old_rule))
            + optional_member(m.old_rules.len() > 0, "OldRules"@, rules_tree(m.old_rules))
            + optional_member(m.new_rule.len() > 0, "NewRule"@, rule_tree(m.new_rule))
            + optional_member(m.new_rules.len() > 0, "NewRules"@, rules_tree(m.new_rules))
            + optional_member(
            m.field_index != 0,
            "FieldIndex"@,
            JsonTree::Number(Some(m.field_index)),
        )
            + optional_member(
            m.field_values.len() > 0,
            "FieldValues"@,
            rule_tree(m.field_values),
        ),
    )
}

/// The wire form of `m`: its JSON object as compact text.
pub open spec fn encode_message(m: MessageView) -> Seq<char> {
    json_text(message_tree(m))
}

/// The value of the last member under `key`, if there is one.
#[verifier::opaque]
pub open spec fn find_member(members: Members, key: Seq<char>) -> Option<JsonTree>
    decreases members.len(),
{
    if members.len() == 0 {
        None
    } else if members.last().0 == key {
        Some(members.last().1)
    } else {
        find_member(members.drop_last(), key)
    }
}

/// The text that `tree` holds, if it is a string.
pub open spec fn text_of(tree: JsonTree) -> Option<Seq<char>> {
    match tree {
        JsonTree::Text(s) => Some(s),
        _ => None,
    }
}

/// The rule that `tree` holds, if it is an array of strings.
pub open spec fn rule_of(tree: JsonTree) -> Option<RuleView> {
    match tree {
        JsonTree::Array(items) => if forall|i: int|
            0 <= i < items.len() ==> text_of(#[trigger] items[i]) is Some {
            Some(Seq::new(items.len(), |i: int| text_of(items[i])->Some_0))
        } else {
            None
        },
        _ => None,
    }
}

/// The rules that `tree` holds, if it is an array of arrays of strings.
pub open spec fn rules_of(tree: JsonTree) -> Option<Seq<RuleView>> {
    match tree {
        JsonTree::Array(items) => if forall|i: int|
            0 <= i < items.len() ==> rule_of(#[trigger] items[i]) is Some {
            Some(Seq::new(items.len(), |i: int| rule_of(items[i])->Some_0))
        } else {
            None
        },
        _ => None,
    }
}

/// The field index that `tree` holds, if it is an integer of 32 signed bits.
pub open spec fn index_of(tree: JsonTree) -> Option<int> {
    match tree {
        JsonTree::Number(Some(n)) => if i32::MIN <= n <= i32::MAX {
            Some(n)
        } else {
            None
        },
        _ => None,
    }
}

/// The text under `key`, empty where the member is missing; `None` where
/// the member is no string.
pub open spec fn optional_text(members: Members, key: Seq<char>) -> Option<Seq<char>> {
    match find_member(members, key) {
        Some(tree) => text_of(tree),
        None => Some(Seq::empty()),
    }
}

/// The rule under `key`, empty where the member is missing; `None` where
/// the member is no array of strings.
pub open spec fn optional_rule(members: Members, key: Seq<char>) -> Option<RuleView> {
    match find_member(members, key) {
        Some(tree) => rule_of(tree),
        None => Some(Seq::empty()),
    }
}

/// The rules under `key`, empty where the member is missing; `None` where
/// the member is no array of arrays of strings.
pub open spec fn optional_rules(members: Members, key: Seq<char>) -> Option<Seq<RuleView>> {
    match find_member(members, key) {
        Some(tree) => rules_of(tree),
        None => Some(Seq::empty()),
    }
}

/// The field index under `key`, zero where the member is missing; `None`
/// where the member is no integer of 32 signed bits.
pub open spec fn optional_index(members: Members, key: Seq<char>) -> Option<int> {
    match find_member(members, key) {
        Some(tree) => index_of(tree),
        None => Some(0),
    }
}

/// The kind under `key`; `None` where the member is missing, no string, or
/// no name of a kind.
pub open spec fn required_kind(members: Members, key: Seq<char>) -> Option<UpdateType> {
    match find_member(members, key) {
        Some(JsonTree::Text(name)) => kind_named(name),
        _ => None,
    }
}

/// The text under `key`; `None` where the member is missing or no string.
pub open spec fn required_text(members: Members, key: Seq<char>) -> Option<Seq<char>> {
    match find_member(members, key) {
        Some(tree) => text_of(tree),
        None => None,
    }
}

/// Whether the members hold a message: the kind and the publisher are there,
/// and every known member has the shape of its field. Members under other
/// keys are not looked at.
pub open spec fn members_well_formed(members: Members) -> bool {
    &&& required_kind(members, "Method"@) is Some
    &&& required_text(members, "ID"@) is Some
    &&& optional_text(members, "Sec"@) is Some
    &&& optional_text(members, "Ptype"@) is Some
    &&& optional_rule(members, "OldRule"@) is Some
    &&& optional_rules(members, "OldRules"@) is Some
    &&& optional_rule(members, "NewRule"@) is Some
    &&& optional_rules(members, "NewRules"@) is Some
    &&& optional_index(members, "FieldIndex"@) is Some
    &&& optional_rule(members, "FieldValues"@) is Some
}

/// The message that well-formed members hold.
pub open spec fn members_message(members: Members) -> MessageView {
    MessageView {
        method: required_kind(members, "Method"@)->Some_0,
        id: required_text(members, "ID"@)->Some_0,
        sec: optional_text(members, "Sec"@)->Some_0,
        ptype: optional_text(members, "Ptype"@)->Some_0,
        old_rule: optional_rule(members, "OldRule"@)->Some_0,
        old_rules: optional_rules(members, "OldRules"@)->Some_0,
        new_rule: optional_rule(members, "NewRule"@)->Some_0,
        new_rules: optional_rules(members, "NewRules"@)->Some_0,
        field_index: optional_index(members, "FieldIndex"@)->Some_0,
        field_values: optional_rule(members, "FieldValues"@)->Some_0,
    }
}

/// The message that `tree` carries, or `None` where it is no JSON object or
/// its members hold no message.
pub open spec fn decode_tree(tree: JsonTree) -> Option<MessageView> {
    match tree {
        JsonTree::Object(members) => if members_well_formed(members) {
            Some(members_message(members))
        } else {
            None
        },
        _ => None,
    }
}

/// The message that `text` carries, or `None` where it is no JSON text or
/// the JSON holds no message.
pub open spec fn decode_message(text: Seq<char>) -> Option<MessageView> {
    match json_parse(text) {
        Some(tree) => decode_tree(tree),
        None => None,
    }
}

/// Looking a key up in two runs of members put together: the later run
/// decides where it has the key.
pub proof fn lemma_find_concat(front: Members, back: Members, key: Seq<char>)
    ensures
        find_member(front + back, key) == match find_member(back, key) {
            Some(tree) => Some(tree),
            None => find_member(front, key),
        },
    decreases back.len(),
{
    reveal(find_member);
    if back.len() == 0 {
        assert(front + back =~= front);
    } else {
        let all = front + back;
        assert(all.last() == back.last());
        assert(all.drop_last() =~= front + back.drop_last());
        if back.last().0 != key {
            lemma_find_concat(front, back.drop_last(), key);
        }
    }
}

/// Looking a key up in a member that may be left out.
pub proof fn lemma_find_optional(present: bool, name: Seq<char>, value: JsonTree, key: Seq<char>)
    ensures
        find_member(optional_member(present, name, value), key) == if present && name == key {
            Some(value)
        } else {
            None
        },
{
    let members = optional_member(present, name, value);
    reveal_with_fuel(find_member, 2);
    if present {
        assert(members.last() == (name, value));
        assert(members.drop_last().len() == 0);
    }
}

/// Looking a key up after one more member that may be left out.
pub proof fn lemma_find_append(
    front: Members,
    present: bool,
    name: Seq<char>,
    value: JsonTree,
    key: Seq<char>,
)
    ensures
        find_member(front + optional_member(present, name, value), key) == if present && name
            == key {
            Some(value)
        } else {
            find_member(front, key)
        },
{
    lemma_find_concat(front, optional_member(present, name, value), key);
    lemma_find_optional(present, name, value, key);
}

/// A rule is read back from its array.
pub proof fn lemma_rule_round_trip(rule: RuleView)
    ensures
        rule_of(rule_tree(rule)) == Some(rule),
{
    let items = rule_tree(rule)->Array_0;
    assert forall|i: int| 0 <= i < items.len() implies text_of(#[trigger] items[i]) is Some by {}
    assert(rule_of(rule_tree(rule))->Some_0 =~= rule);
}

/// A list of rules is read back from its array.
pub proof fn lemma_rules_round_trip(rules: Seq<RuleView>)
    ensures
        rules_of(rules_tree(rules)) == Some(rules),
{
    let items = rules_tree(rules)->Array_0;
    assert forall|i: int| 0 <= i < items.len() implies rule_of(#[trigger] items[i]) == Some(
        rules[i],
    ) by {
        lemma_rule_round_trip(rules[i]);
    }
    assert(rules_of(rules_tree(rules))->Some_0 =~= rules);
}

/// The value found under `key` in the object of `m`: the members are looked
/// through from the last to the first.
pub open spec fn found_in_message(m: MessageView, key: Seq<char>) -> Option<JsonTree> {
    if m.field_values.len() > 0 && key == "FieldValues"@ {
        Some(rule_tree(m.field_values))
    } else if m.field_index != 0 && key == "FieldIndex"@ {
        Some(JsonTree::Number(Some(m.field_index)))
    } else if m.new_rules.len() > 0 && key == "NewRules"@ {
        Some(rules_tree(m.new_rules))
    } else if m.new_rule.len() > 0 && key == "NewRule"@ {
        Some(rule_tree(m.new_rule))
    } else if m.old_rules.len() > 0 && key == "OldRules"@ {
        Some(rules_tree(m.old_rules))
    } else if m.old_rule.len() > 0 && key == "OldRule"@ {
        Some(rule_tree(m.old_rule))
    } else if m.ptype.len() > 0 && key == "Ptype"@ {
        Some(JsonTree::Text(m.ptype))
    } else if m.sec.len() > 0 && key == "Sec"@ {
        Some(JsonTree::Text(m.sec))
    } else if key == "ID"@ {
        Some(JsonTree::Text(m.id))
    } else if key == "Method"@ {
        Some(JsonTree::Text(kind_name(m.method)))
    } else {
        None
    }
}

/// Looking a key up in the object of a message.
#[verifier::spinoff_prover]
#[verifier::rlimit(40)]
pub proof fn lemma_find_in_message(m: MessageView, key: Seq<char>)
    ensures
        message_tree(m) is Object,
        find_member(message_tree(m)->Object_0, key) == found_in_message(m, key),
{
    let sec = optional_member(m.sec.len() > 0, "Sec"@, JsonTree::Text(m.sec));
    let ptype = optional_member(m.ptype.len() > 0, "Ptype"@, JsonTree::Text(m.ptype));
    let old_rule = optional_member(m.old_rule.len() > 0, "OldRule"@, rule_tree(m.old_rule));
    let old_rules = optional_member(m.old_rules.len() > 0, "OldRules"@, rules_tree(m.old_rules));
    let new_rule = optional_member(m.new_rule.len() > 0, "NewRule"@, rule_tree(m.new_rule));
    let new_rules = optional_member(m.new_rules.len() > 0, "NewRules"@, rules_tree(m.new_rules));
    let values = optional_member(
        m.field_values.len() > 0,
        "FieldValues"@,
        rule_tree(m.field_values),
    );
    let method = optional_member(true, "Method"@, JsonTree::Text(kind_name(m.method)));
    let id = optional_member(true, "ID"@, JsonTree::Text(m.id));
    let a0 = method + id;
    let a1 = a0 + sec;
    let a2 = a1 + ptype;
    let a3 = a2 + old_rule;
    let a4 = a3 + old_rules;
    let a5 = a4 + new_rule;
    let a6 = a5 + new_rules;
    let a7 = a6 + optional_member(
        m.field_index != 0,
        "FieldIndex"@,
        JsonTree::Number(Some(m.field_index)),
    );
    let a8 = a7 + values;
    assert(message_tree(m)->Object_0 == a8);
    lemma_find_optional(true, "Method"@, JsonTree::Text(kind_name(m.method)), key);
    lemma_find_append(method, true, "ID"@, JsonTree::Text(m.id), key);
    lemma_find_append(a0, m.sec.len() > 0, "Sec"@, JsonTree::Text(m.sec), key);
    lemma_find_append(a1, m.ptype.len() > 0, "Ptype"@, JsonTree::Text(m.ptype), key);
    lemma_find_append(a2, m.old_rule.len() > 0, "OldRule"@, rule_tree(m.old_rule), key);
    lemma_find_append(a3, m.old_rules.len() > 0, "OldRules"@, rules_tree(m.old_rules), key);
    lemma_find_append(a4, m.new_rule.len() > 0, "NewRule"@, rule_tree(m.new_rule), key);
    lemma_find_append(a5, m.new_rules.len() > 0, "NewRules"@, rules_tree(m.new_rules), key);
    lemma_find_append(
        a6,
        m.field_index != 0,
        "FieldIndex"@,
        JsonTree::Number(Some(m.field_index)),
        key,
    );
    lemma_find_append(
        a7,
        m.field_values.len() > 0,
        "FieldValues"@,
        rule_tree(m.field_values),
        key,
    );
}

/// The ten member names differ from one another.
pub proof fn lemma_member_names_differ()
    ensures
        "Method"@.len() == 6,
        "ID"@.len() == 2,
        "Sec"@.len() == 3,
        "Ptype"@.len() == 5,
        "OldRule"@.len() == 7,
        "OldRules"@.len() == 8,
        "NewRule"@.len() == 7,
        "NewRules"@.len() == 8,
        "FieldIndex"@.len() == 10,
        "FieldValues"@.len() == 11,
        "OldRule"@ != "NewRule"@,
        "OldRules"@ != "NewRules"@,
{
    reveal_strlit("Method");
    reveal_strlit("ID");
    reveal_strlit("Sec");
    reveal_strlit("Ptype");
    reveal_strlit("OldRule");
    reveal_strlit("OldRules");
    reveal_strlit("NewRule");
    reveal_strlit("NewRules");
    reveal_strlit("FieldIndex");
    reveal_strlit("FieldValues");
    assert("OldRule"@[0] == 'O');
    assert("NewRule"@[0] == 'N');
    assert("OldRules"@[0] == 'O');
    assert("NewRules"@[0] == 'N');
}

/// A message is read back from the JSON object that carries it, whatever
/// its kind and whichever of its fields are empty.
pub proof fn lemma_tree_round_trip(m: MessageView)
    requires
        i32::MIN <= m.field_index <= i32::MAX,
    ensures
        decode_tree(message_tree(m)) == Some(m),
{
    let members = message_tree(m)->Object_0;
    lemma_member_names_differ();
    lemma_find_in_message(m, "Method"@);
    lemma_find_in_message(m, "ID"@);
    lemma_find_in_message(m, "Sec"@);
    lemma_find_in_message(m, "Ptype"@);
    lemma_find_in_message(m, "OldRule"@);
    lemma_find_in_message(m, "OldRules"@);
    lemma_find_in_message(m, "NewRule"@);
    lemma_find_in_message(m, "NewRules"@);
    lemma_find_in_message(m, "FieldIndex"@);
    lemma_find_in_message(m, "FieldValues"@);
    lemma_kind_name_round_trip(m.method);
    lemma_rule_round_trip(m.old_rule);
    lemma_rule_round_trip(m.new_rule);
    lemma_rule_round_trip(m.field_values);
    lemma_rules_round_trip(m.old_rules);
    lemma_rules_round_trip(m.new_rules);
    assert(required_kind(members, "Method"@) == Some(m.method));
    assert(required_text(members, "ID"@) == Some(m.id));
    assert(optional_text(members, "Sec"@) == Some(m.sec)) by {
        if m.sec.len() == 0 {
            assert(m.sec =~= Seq::empty());
        }
    }
    assert(optional_text(members, "Ptype"@) == Some(m.ptype)) by {
        if m.ptype.len() == 0 {
            assert(m.ptype =~= Seq::empty());
        }
    }
    assert(optional_rule(members, "OldRule"@) == Some(m.old_rule)) by {
        if m.old_rule.len() == 0 {
            assert(m.old_rule =~= Seq::empty());
        }
    }
    assert(optional_rules(members, "OldRules"@) == Some(m.old_rules)) by {
        if m.old_rules.len() == 0 {
            assert(m.old_rules =~= Seq::empty());
        }
    }
    assert(optional_rule(members, "NewRule"@) == Some(m.new_rule)) by {
        if m.new_rule.len() == 0 {
            assert(m.new_rule =~= Seq::empty());
        }
    }
    assert(optional_rules(members, "NewRules"@) == Some(m.new_rules)) by {
        if m.new_rules.len() == 0 {
            assert(m.new_rules =~= Seq::empty());
        }
    }
    assert(optional_index(members, "FieldIndex"@) == Some(m.field_index));
    assert(optional_rule(members, "FieldValues"@) == Some(m.field_values)) by {
        if m.field_values.len() == 0 {
            assert(m.field_values =~= Seq::empty());
        }
    }
}

/// The byte form of `m`: its wire form in UTF-8.
pub open spec fn encode_bytes(m: MessageView) -> Seq<u8> {
    encode_utf8(encode_message(m))
}

/// The message that `bytes` carry, or `None` where they are no UTF-8 or the
/// text holds no message.
pub open spec fn decode_bytes(bytes: Seq<u8>) -> Option<MessageView> {
    if valid_utf8(bytes) {
        decode_message(decode_utf8(bytes))
    } else {
        None
    }
}

/// The two forms agree: the bytes of a text carry what the text carries.
pub proof fn lemma_byte_form_agrees(text: Seq<char>)
    ensures
        decode_bytes(encode_utf8(text)) == decode_message(text),
{
    encode_utf8_valid_utf8(text);
    encode_utf8_decode_utf8(text);
}

/// Every message is read back from the JSON object that carries it.
pub proof fn lemma_message_round_trip(message: Message)
    ensures
        decode_tree(message_tree(message@)) == Some(message@),
{
    lemma_tree_round_trip(message@);
}

/// Whether two lists of members give the same value under every key.
pub open spec fn same_members(a: Members, b: Members) -> bool {
    forall|key: Seq<char>| #[trigger] find_member(a, key) == find_member(b, key)
}

/// Whether the parser reads the wire form of `m` back as an object that has
/// under every key the value that was written under it. The order of the
/// members is left open: the parser may sort them.
pub open spec fn reads_back(m: MessageView) -> bool {
    match json_parse(encode_message(m)) {
        Some(JsonTree::Object(members)) => same_members(members, message_tree(m)->Object_0),
        _ => false,
    }
}

/// Decoding looks members up by their keys and at nothing else: two objects
/// that give the same value under every key hold the same message.
pub proof fn lemma_decoding_goes_by_keys(a: Members, b: Members)
    requires
        same_members(a, b),
    ensures
        decode_tree(JsonTree::Object(a)) == decode_tree(JsonTree::Object(b)),
{
    assert(find_member(a, "Method"@) == find_member(b, "Method"@));
    assert(find_member(a, "ID"@) == find_member(b, "ID"@));
    assert(find_member(a, "Sec"@) == find_member(b, "Sec"@));
    assert(find_member(a, "Ptype"@) == find_member(b, "Ptype"@));
    assert(find_member(a, "OldRule"@) == find_member(b, "OldRule"@));
    assert(find_member(a, "OldRules"@) == find_member(b, "OldRules"@));
    assert(find_member(a, "NewRule"@) == find_member(b, "NewRule"@));
    assert(find_member(a, "NewRules"@) == find_member(b, "NewRules"@));
    assert(find_member(a, "FieldIndex"@) == find_member(b, "FieldIndex"@));
    assert(find_member(a, "FieldValues"@) == find_member(b, "FieldValues"@));
}

/// Where the parser reads the wire form of `m` back with the written value
/// under every key, decoding either form gives `m`.
pub proof fn lemma_read_back_round_trip(m: MessageView)
    requires
        i32::MIN <= m.field_index <= i32::MAX,
        reads_back(m),
    ensures
        decode_message(encode_message(m)) == Some(m),
        decode_bytes(encode_bytes(m)) == Some(m),
{
    let parsed = json_parse(encode_message(m))->Some_0;
    lemma_decoding_goes_by_keys(parsed->Object_0, message_tree(m)->Object_0);
    lemma_tree_round_trip(m);
    lemma_byte_form_agrees(encode_message(m));
}

/// Where the parser reads the wire form of a message back with the written
/// value under every key, decoding either form gives the message.
pub proof fn lemma_wire_round_trip(message: Message)
    ensures
        reads_back(message@) ==> decode_message(encode_message(message@)) == Some(message@)
            && decode_bytes(encode_bytes(message@)) == Some(message@),
{
    if reads_back(message@) {
        lemma_read_back_round_trip(message@);
    }
}

/// The wire form of a message begins with an opening brace.
pub proof fn lemma_wire_form_opens_with_brace(m: MessageView)
    ensures
        encode_message(m).len() > 0,
        encode_message(m)[0] == '{',
{
    reveal_strlit("{");
    assert(message_tree(m) is Object);
}

/// The error of std for bytes that are no UTF-8, carried through unread.
#[verifier::external_type_specification]
#[verifier::external_body]
pub struct ExUtf8Error(std::str::Utf8Error);

/// Reads `bytes` as text with `std::str::from_utf8`, which takes exactly
/// the byte sequences that are UTF-8 and hands back the same bytes as text.
#[verifier::external_body]
fn text_from_bytes(bytes: &[u8]) -> (r: Result<&str, std::str::Utf8Error>)
    ensures
        r is Ok <==> valid_utf8(bytes@),
        r matches Ok(text) ==> encode_utf8(text@) == bytes@,
{
    std::str::from_utf8(bytes)
}

/// Makes a parser error with the words `reason`, through
/// `serde::de::Error::custom` as `serde_json::Error` implements it. That
/// call keeps the message as the error's words, unless the message ends in
/// a line and a column number, which it takes out and writes anew. Such an
/// ending ends in a digit, so the contract speaks of the other messages
/// only.
#[verifier::external_body]
fn shape_error(reason: &str) -> (error: serde_json::Error)
    ensures
        !ends_in_digit(reason@) ==> json_error_words(error) == reason@,
{
    <serde_json::Error as serde::de::Error>::custom(reason)
}

/// The error for a JSON value that holds no message: a serialization error
/// whose words are `reason`.
fn malformed(reason: &str) -> (error: WatcherError)
    ensures
        error is Serialization,
        !ends_in_digit(reason@) ==> json_error_words(error->Serialization_0) == reason@,
{
    WatcherError::Serialization(shape_error(reason))
}

fn rule_value(rule: &Vec<String>) -> (value: JsonValue)
    ensures
        value@ == rule_tree(rule.deep_view()),
{
    let mut items: Vec<JsonValue> = Vec::new();
    let mut i: usize = 0;
    while i < rule.len()
        invariant
            i <= rule.len(),
            items.len() == i,
            forall|k: int| 0 <= k < i ==> items[k]@ == JsonTree::Text(rule[k]@),
        decreases rule.len() - i,
    {
        items.push(JsonValue::Text(rule[i].clone()));
        i = i + 1;
    }
    let value = JsonValue::Array(items);
    proof {
        lemma_array_view(value);
        assert(value@->Array_0 =~= rule_tree(rule.deep_view())->Array_0);
    }
    value
}

fn rules_value(rules: &Vec<Vec<String>>) -> (value: JsonValue)
    ensures
        value@ == rules_tree(rules.deep_view()),
{
    let mut items: Vec<JsonValue> = Vec::new();
    let mut i: usize = 0;
    while i < rules.len()
        invariant
            i <= rules.len(),
            items.len() == i,
            forall|k: int| 0 <= k < i ==> items[k]@ == rule_tree(rules[k].deep_view()),
        decreases rules.len() - i,
    {
        items.push(rule_value(&rules[i]));
        i = i + 1;
    }
    let value = JsonValue::Array(items);
    proof {
        lemma_array_view(value);
        assert(value@->Array_0 =~= rules_tree(rules.deep_view())->Array_0);
    }
    value
}

/// Whether `found` is the text `expected`, or both are nothing.
pub open spec fn matches_text(found: Option<String>, expected: Option<Seq<char>>) -> bool {
    match expected {
        Some(text) => found is Some && found->Some_0@ == text,
        None => found is None,
    }
}

/// Whether `found` is the rule `expected`, or both are nothing.
pub open spec fn matches_rule(found: Option<Vec<String>>, expected: Option<RuleView>) -> bool {
    match expected {
        Some(rule) => found is Some && found->Some_0.deep_view() == rule,
        None => found is None,
    }
}

/// Whether `found` holds the rules `expected`, or both are nothing.
pub open spec fn matches_rules(
    found: Option<Vec<Vec<String>>>,
    expected: Option<Seq<RuleView>>,
) -> bool {
    match expected {
        Some(rules) => found is Some && found->Some_0.deep_view() == rules,
        None => found is None,
    }
}

/// Whether `found` is the index `expected`, or both are nothing.
pub open spec fn matches_index(found: Option<i32>, expected: Option<int>) -> bool {
    match expected {
        Some(index) => found is Some && found->Some_0 == index,
        None => found is None,
    }
}

/// Whether `found` is a value with the content `expected`, or both are nothing.
pub open spec fn matches_tree(found: Option<&JsonValue>, expected: Option<JsonTree>) -> bool {
    match expected {
        Some(tree) => found is Some && found->Some_0@ == tree,
        None => found is None,
    }
}

fn read_text(value: &JsonValue) -> (found: Option<String>)
    ensures
        matches_text(found, text_of(value@)),
{
    match value {
        JsonValue::Text(text) => Some(text.clone()),
        _ => None,
    }
}

fn read_rule(value: &JsonValue) -> (found: Option<Vec<String>>)
    ensures
        matches_rule(found, rule_of(value@)),
{
    match value {
        JsonValue::Array(items) => {
            proof {
                lemma_array_view(*value);
            }
            let mut rule: Vec<String> = Vec::new();
            let mut i: usize = 0;
            while i < items.len()
                invariant
                    i <= items.len(),
                    rule.len() == i,
                    value@ is Array,
                    value@->Array_0.len() == items.len(),
                    forall|k: int|
                        #![trigger items[k]]
                        0 <= k < items.len() ==> value@->Array_0[k] == items[k]@,
                    forall|k: int|
                        #![trigger items[k]]
                        0 <= k < i ==> text_of(items[k]@) is Some && rule[k]@ == text_of(
                            items[k]@,
                        )->Some_0,
                decreases items.len() - i,
            {
                match read_text(&items[i]) {
                    Some(text) => {
                        rule.push(text);
                    },
                    None => {
                        assert(text_of(value@->Array_0[i as int]) is None);
                        return None;
                    },
                }
                i = i + 1;
            }
            proof {
                assert forall|k: int| 0 <= k < value@->Array_0.len() implies text_of(
                    #[trigger] value@->Array_0[k],
                ) is Some by {
                    assert(value@->Array_0[k] == items[k]@);
                }
                assert(rule.deep_view() =~= rule_of(value@)->Some_0);
            }
            Some(rule)
        },
        _ => None,
    }
}

fn read_rules(value: &JsonValue) -> (found: Option<Vec<Vec<String>>>)
    ensures
        matches_rules(found, rules_of(value@)),
{
    match value {
        JsonValue::Array(items) => {
            proof {
                lemma_array_view(*value);
            }
            let mut rules: Vec<Vec<String>> = Vec::new();
            let mut i: usize = 0;
            while i < items.len()
                invariant
                    i <= items.len(),
                    rules.len() == i,
                    value@ is Array,
                    value@->Array_0.len() == items.len(),
                    forall|k: int|
                        #![trigger items[k]]
                        0 <= k < items.len() ==> value@->Array_0[k] == items[k]@,
                    forall|k: int|
                        #![trigger items[k]]
                        0 <= k < i ==> rule_of(items[k]@) is Some && rules[k].deep_view()
                            == rule_of(items[k]@)->Some_0,
                decreases items.len() - i,
            {
                match read_rule(&items[i]) {
                    Some(rule) => {
                        rules.push(rule);
                    },
                    None => {
                        assert(rule_of(value@->Array_0[i as int]) is None);
                        return None;
                    },
                }
                i = i + 1;
            }
            proof {
                assert forall|k: int| 0 <= k < value@->Array_0.len() implies rule_of(
                    #[trigger] value@->Array_0[k],
                ) is Some by {
                    assert(value@->Array_0[k] == items[k]@);
                }
                assert(rules.deep_view() =~= rules_of(value@)->Some_0);
            }
            Some(rules)
        },
        _ => None,
    }
}

fn read_index(value: &JsonValue) -> (found: Option<i32>)
    ensures
        matches_index(found, index_of(value@)),
{
    match value {
        JsonValue::Number(Some(n)) => {
            if -2147483648 <= *n && *n <= 2147483647 {
                Some(*n as i32)
            } else {
                None
            }
        },
        _ => None,
    }
}

/// The value of the last member under `key`.
fn find<'a>(members: &'a Vec<(String, JsonValue)>, key: &str) -> (found: Option<&'a JsonValue>)
    ensures
        matches_tree(found, find_member(member_trees(*members, members.len() as nat), key@)),
{
    let mut i: usize = members.len();
    while i > 0
        invariant
            i <= members.len(),
            find_member(member_trees(*members, members.len() as nat), key@) == find_member(
                member_trees(*members, i as nat),
                key@,
            ),
        decreases i,
    {
        proof {
            reveal(find_member);
            lemma_member_trees(*members, i as nat);
            lemma_member_trees(*members, (i - 1) as nat);
            let now = member_trees(*members, i as nat);
            assert(now.drop_last() =~= member_trees(*members, (i - 1) as nat));
            assert(now.last() == (members[i - 1].0@, members[i - 1].1@));
        }
        if is_text(&members[i - 1].0, key) {
            return Some(&members[i - 1].1);
        }
        i = i - 1;
    }
    proof {
        reveal(find_member);
    }
    None
}

/// The contents of the members of an object.
pub open spec fn members_view(members: Vec<(String, JsonValue)>) -> Members {
    member_trees(members, members.len() as nat)
}

/// Appends the member `key` with `value`.
fn push_member(members: &mut Vec<(String, JsonValue)>, key: &str, value: JsonValue)
    ensures
        members_view(*final(members)) == members_view(*old(members)) + seq![(key@, value@)],
{
    let ghost before = *members;
    members.push((String::from_str(key), value));
    proof {
        lemma_member_trees(before, before.len() as nat);
        lemma_member_trees(*members, members.len() as nat);
        assert(members_view(*members) =~= members_view(before) + seq![(key@, value@)]);
    }
}

/// Appends the member `key` with `text`, unless the text is empty.
fn push_text(members: &mut Vec<(String, JsonValue)>, key: &str, text: &String)
    ensures
        members_view(*final(members)) == members_view(*old(members)) + optional_member(
            text@.len() > 0,
            key@,
            JsonTree::Text(text@),
        ),
{
    if !text.as_str().is_empty() {
        push_member(members, key, JsonValue::Text(text.clone()));
    } else {
        assert(members_view(*members) + Seq::empty() =~= members_view(*members));
    }
}

/// Appends the member `key` with `rule`, unless the rule is empty.
fn push_rule(members: &mut Vec<(String, JsonValue)>, key: &str, rule: &Vec<String>)
    ensures
        members_view(*final(members)) == members_view(*old(members)) + optional_member(
            rule.deep_view().len() > 0,
            key@,
            rule_tree(rule.deep_view()),
        ),
{
    if rule.len() > 0 {
        push_member(members, key, rule_value(rule));
    } else {
        assert(members_view(*members) + Seq::empty() =~= members_view(*members));
    }
}

/// Appends the member `key` with `index`, unless the index is zero.
fn push_index(members: &mut Vec<(String, JsonValue)>, key: &str, index: i32)
    ensures
        members_view(*final(members)) == members_view(*old(members)) + optional_member(
            index != 0,
            key@,
            JsonTree::Number(Some(index as int)),
        ),
{
    if index != 0 {
        push_member(members, key, JsonValue::Number(Some(index as i64)));
    } else {
        assert(members_view(*members) + Seq::empty() =~= members_view(*members));
    }
}

/// Appends the member `key` with `rules`, unless there are none.
fn push_rules(members: &mut Vec<(String, JsonValue)>, key: &str, rules: &Vec<Vec<String>>)
    ensures
        members_view(*final(members)) == members_view(*old(members)) + optional_member(
            rules.deep_view().len() > 0,
            key@,
            rules_tree(rules.deep_view()),
        ),
{
    if rules.len() > 0 {
        push_member(members, key, rules_value(rules));
    } else {
        assert(members_view(*members) + Seq::empty() =~= members_view(*members));
    }
}

/// Writes `rule` as a JSON array with `serde_json::to_string`: the strings in
/// order, each as `serde_json` quotes it, with commas between them and
/// brackets around them. Writing a list of strings cannot fail.
#[verifier::external_body]
fn write_rule(rule: &Vec<String>) -> (r: Result<String, serde_json::Error>)
    ensures
        r is Ok,
        r matches Ok(text) ==> text@ == json_text(rule_tree(rule.deep_view())),
{
    serde_json::to_string(rule)
}

/// Writes `rules` as a JSON array of arrays with `serde_json::to_string`:
/// the rules in order, each written as an array of its strings, with commas
/// between them and brackets around them. Writing lists of strings cannot
/// fail.
#[verifier::external_body]
fn write_rules(rules: &Vec<Vec<String>>) -> (r: Result<String, serde_json::Error>)
    ensures
        r is Ok,
        r matches Ok(text) ==> text@ == json_text(rules_tree(rules.deep_view())),
{
    serde_json::to_string(rules)
}

/// Writes `index` as a JSON number with `serde_json::to_string`: its decimal
/// digits without leading zeros, behind a minus sign where it is negative.
/// Writing an integer cannot fail.
#[verifier::external_body]
fn write_index(index: i32) -> (r: Result<String, serde_json::Error>)
    ensures
        r is Ok,
        r matches Ok(text) ==> text@ == json_text(JsonTree::Number(Some(index as int))),
{
    serde_json::to_string(&index)
}

/// The text of an object that is being written: the opening brace and the
/// members so far.
pub open spec fn object_start(members: Members) -> Seq<char> {
    "{"@ + join_texts(member_texts(members))
}

/// Writes one more member behind those that `out` holds: a comma unless it
/// is the first, the key as a string literal, a colon, and the value.
fn write_member(
    out: &mut String,
    first: bool,
    key: &str,
    value: &str,
    Ghost(members): Ghost<Members>,
    Ghost(tree): Ghost<JsonTree>,
) -> (r: Result<(), serde_json::Error>)
    requires
        old(out)@ == object_start(members),
        first == (members.len() == 0),
        value@ == json_text(tree),
    ensures
        r is Ok,
        final(out)@ == object_start(members + seq![(key@, tree)]),
{
    if !first {
        out.append(",");
    }
    match quote_text(key) {
        Ok(name) => {
            out.append(name.as_str());
        },
        Err(error) => {
            return Err(error);
        },
    }
    out.append(":");
    out.append(value);
    proof {
        let n = members.len() as int;
        let parts = member_texts(members + seq![(key@, tree)]);
        assert(parts.take(n) =~= member_texts(members));
        assert(parts.take(n + 1) =~= parts);
        assert(parts[n] == json_quoted(key@) + ":"@ + json_text(tree));
        lemma_join_next(parts, n);
    }
    Ok(())
}

/// Writes the member `key` with `text`, unless the text is empty. The
/// answer says whether the object still has no member.
fn write_text(out: &mut String, first: bool, key: &str, text: &String, Ghost(members): Ghost<Members>)
    -> (r: Result<bool, serde_json::Error>)
    requires
        old(out)@ == object_start(members),
        first == (members.len() == 0),
    ensures
        r is Ok,
        final(out)@ == object_start(
            members + optional_member(text@.len() > 0, key@, JsonTree::Text(text@)),
        ),
        r->Ok_0 == ((members + optional_member(
            text@.len() > 0,
            key@,
            JsonTree::Text(text@),
        )).len() == 0),
{
    if text.as_str().is_empty() {
        assert(members + Seq::empty() =~= members);
        return Ok(first);
    }
    match quote_text(text.as_str()) {
        Ok(value) => match write_member(
            out,
            first,
            key,
            value.as_str(),
            Ghost(members),
            Ghost(JsonTree::Text(text@)),
        ) {
            Ok(_) => Ok(false),
            Err(error) => Err(error),
        },
        Err(error) => Err(error),
    }
}

/// Writes the member `key` with `rule`, unless the rule is empty. The
/// answer says whether the object still has no member.
fn write_rule_member(
    out: &mut String,
    first: bool,
    key: &str,
    rule: &Vec<String>,
    Ghost(members): Ghost<Members>,
) -> (r: Result<bool, serde_json::Error>)
    requires
        old(out)@ == object_start(members),
        first == (members.len() == 0),
    ensures
        r is Ok,
        final(out)@ == object_start(
            members + optional_member(
                rule.deep_view().len() > 0,
                key@,
                rule_tree(rule.deep_view()),
            ),
        ),
        r->Ok_0 == ((members + optional_member(
            rule.deep_view().len() > 0,
            key@,
            rule_tree(rule.deep_view()),
        )).len() == 0),
{
    if rule.len() == 0 {
        assert(members + Seq::empty() =~= members);
        return Ok(first);
    }
    match write_rule(rule) {
        Ok(value) => match write_member(
            out,
            first,
            key,
            value.as_str(),
            Ghost(members),
            Ghost(rule_tree(rule.deep_view())),
        ) {
            Ok(_) => Ok(false),
            Err(error) => Err(error),
        },
        Err(error) => Err(error),
    }
}

/// Writes the member `key` with `rules`, unless there are none. The answer
/// says whether the object still has no member.
fn write_rules_member(
    out: &mut String,
    first: bool,
    key: &str,
    rules: &Vec<Vec<String>>,
    Ghost(members): Ghost<Members>,
) -> (r: Result<bool, serde_json::Error>)
    requires
        old(out)@ == object_start(members),
        first == (members.len() == 0),
    ensures
        r is Ok,
        final(out)@ == object_start(
            members + optional_member(
                rules.deep_view().len() > 0,
                key@,
                rules_tree(rules.deep_view()),
            ),
        ),
        r->Ok_0 == ((members + optional_member(
            rules.deep_view().len() > 0,
            key@,
            rules_tree(rules.deep_view()),
        )).len() == 0),
{
    if rules.len() == 0 {
        assert(members + Seq::empty() =~= members);
        return Ok(first);
    }
    match write_rules(rules) {
        Ok(value) => match write_member(
            out,
            first,
            key,
            value.as_str(),
            Ghost(members),
            Ghost(rules_tree(rules.deep_view())),
        ) {
            Ok(_) => Ok(false),
            Err(error) => Err(error),
        },
        Err(error) => Err(error),
    }
}

/// Writes the member `key` with `index`, unless the index is zero. The
/// answer says whether the object still has no member.
fn write_index_member(
    out: &mut String,
    first: bool,
    key: &str,
    index: i32,
    Ghost(members): Ghost<Members>,
) -> (r: Result<bool, serde_json::Error>)
    requires
        old(out)@ == object_start(members),
        first == (members.len() == 0),
    ensures
        r is Ok,
        final(out)@ == object_start(
            members + optional_member(
                index != 0,
                key@,
                JsonTree::Number(Some(index as int)),
            ),
        ),
        r->Ok_0 == ((members + optional_member(
            index != 0,
            key@,
            JsonTree::Number(Some(index as int)),
        )).len() == 0),
{
    if index == 0 {
        assert(members + Seq::empty() =~= members);
        return Ok(first);
    }
    match write_index(index) {
        Ok(value) => match write_member(
            out,
            first,
            key,
            value.as_str(),
            Ghost(members),
            Ghost(JsonTree::Number(Some(index as int))),
        ) {
            Ok(_) => Ok(false),
            Err(error) => Err(error),
        },
        Err(error) => Err(error),
    }
}

/// Whether `result` is the outcome of decoding: the message `expected`, or
/// a serialization error where there is none.
pub open spec fn decoded_as(
    result: Result<Message, WatcherError>,
    expected: Option<MessageView>,
) -> bool {
    match expected {
        Some(m) => result is Ok && result->Ok_0@ == m,
        None => result is Err && result->Err_0 is Serialization,
    }
}

impl Message {
    /// The JSON object that carries this message.
    pub fn to_value(&self) -> (value: JsonValue)
        ensures
            value@ == message_tree(self@),
    {
        let ghost m = self@;
        let mut members: Vec<(String, JsonValue)> = Vec::new();
        push_member(&mut members, "Method", JsonValue::Text(self.method.to_string()));
        push_member(&mut members, "ID", JsonValue::Text(self.id.clone()));
        assert(members_view(members) =~= seq![("Method"@, JsonTree::Text(kind_name(m.method)))]
            + seq![("ID"@, JsonTree::Text(m.id))]);
        push_text(&mut members, "Sec", &self.sec);
        push_text(&mut members, "Ptype", &self.ptype);
        push_rule(&mut members, "OldRule", &self.old_rule);
        push_rules(&mut members, "OldRules", &self.old_rules);
        push_rule(&mut members, "NewRule", &self.new_rule);
        push_rules(&mut members, "NewRules", &self.new_rules);
        push_index(&mut members, "FieldIndex", self.field_index);
        push_rule(&mut members, "FieldValues", &self.field_values);
        JsonValue::Object(members)
    }

    /// Reads a message from the JSON object that carries it. The kind and
    /// the publisher must be there; a field that is left out is empty, and
    /// the field index zero; members under other names are passed over.
    pub fn from_value(value: &JsonValue) -> (result: Result<Message, WatcherError>)
        ensures
            decoded_as(result, decode_tree(value@)),
    {
        match value {
            JsonValue::Object(members) => {
                proof {
                    lemma_object_view(*value);
                    assert(value@->Object_0 =~= member_trees(*members, members.len() as nat));
                }
                let method = match find(members, "Method") {
                    Some(JsonValue::Text(name)) => match UpdateType::from_name(name) {
                        Some(method) => method,
                        None => {
                            return Err(malformed("unknown variant in `Method`"));
                        },
                    },
                    Some(_) => {
                        return Err(malformed("invalid type for `Method`"));
                    },
                    None => {
                        return Err(malformed("missing field `Method`"));
                    },
                };
                let id = match find(members, "ID") {
                    Some(found) => match read_text(found) {
                        Some(id) => id,
                        None => {
                            return Err(malformed("invalid type for `ID`"));
                        },
                    },
                    None => {
                        return Err(malformed("missing field `ID`"));
                    },
                };
                let sec = match find(members, "Sec") {
                    Some(found) => match read_text(found) {
                        Some(sec) => sec,
                        None => {
                            return Err(malformed("invalid type for `Sec`"));
                        },
                    },
                    None => String::new(),
                };
                let ptype = match find(members, "Ptype") {
                    Some(found) => match read_text(found) {
                        Some(ptype) => ptype,
                        None => {
                            return Err(malformed("invalid type for `Ptype`"));
                        },
                    },
                    None => String::new(),
                };
                let old_rule = match find(members, "OldRule") {
                    Some(found) => match read_rule(found) {
                        Some(rule) => rule,
                        None => {
                            return Err(malformed("invalid type for `OldRule`"));
                        },
                    },
                    None => Vec::new(),
                };
                let old_rules = match find(members, "OldRules") {
                    Some(found) => match read_rules(found) {
                        Some(rules) => rules,
                        None => {
                            return Err(malformed("invalid type for `OldRules`"));
                        },
                    },
                    None => Vec::new(),
                };
                let new_rule = match find(members, "NewRule") {
                    Some(found) => match read_rule(found) {
                        Some(rule) => rule,
                        None => {
                            return Err(malformed("invalid type for `NewRule`"));
                        },
                    },
                    None => Vec::new(),
                };
                let new_rules = match find(members, "NewRules") {
                    Some(found) => match read_rules(found) {
                        Some(rules) => rules,
                        None => {
                            return Err(malformed("invalid type for `NewRules`"));
                        },
                    },
                    None => Vec::new(),
                };
                let field_index = match find(members, "FieldIndex") {
                    Some(found) => match read_index(found) {
                        Some(index) => index,
                        None => {
                            return Err(malformed("invalid type for `FieldIndex`"));
                        },
                    },
                    None => 0,
                };
                let field_values = match find(members, "FieldValues") {
                    Some(found) => match read_rule(found) {
                        Some(rule) => rule,
                        None => {
                            return Err(malformed("invalid type for `FieldValues`"));
                        },
                    },
                    None => Vec::new(),
                };
                let message = Message {
                    method,
                    id,
                    sec,
                    ptype,
                    old_rule,
                    old_rules,
                    new_rule,
                    new_rules,
                    field_index,
                    field_values,
                };
                proof {
                    let all = value@->Object_0;
                    assert(members_well_formed(all));
                    assert(message.old_rule.deep_view() =~= optional_rule(all, "OldRule"@)->Some_0);
                    assert(message.old_rules.deep_view() =~= optional_rules(
                        all,
                        "OldRules"@,
                    )->Some_0);
                    assert(message.new_rule.deep_view() =~= optional_rule(all, "NewRule"@)->Some_0);
                    assert(message.new_rules.deep_view() =~= optional_rules(
                        all,
                        "NewRules"@,
                    )->Some_0);
                    assert(message.field_values.deep_view() =~= optional_rule(
                        all,
                        "FieldValues"@,
                    )->Some_0);
                    assert(message@ == members_message(all));
                }
                Ok(message)
            },
            _ => Err(malformed("invalid type: a message is a map")),
        }
    }

    /// The wire form of this message: its JSON object as compact text. The
    /// values are written by `serde_json`, whose error type the steps carry;
    /// no message makes the writing fail.
    pub fn to_json(&self) -> (result: Result<String, WatcherError>)
        ensures
            result is Ok,
            result->Ok_0@ == encode_message(self@),
    {
        match self.write() {
            Ok(text) => Ok(text),
            Err(error) => Err(WatcherError::Serialization(error)),
        }
    }

    /// Writes the members of this message one after the other.
    fn write(&self) -> (result: Result<String, serde_json::Error>)
        ensures
            result is Ok,
            result->Ok_0@ == encode_message(self@),
    {
        let ghost m = self@;
        let mut out = String::from_str("{");
        let ghost mut members: Members = Seq::empty();
        proof {
            assert(member_texts(members) =~= Seq::empty());
        }
        let kind = self.method.to_string();
        let quoted = match quote_text(kind.as_str()) {
            Ok(quoted) => quoted,
            Err(error) => {
                return Err(error);
            },
        };
        match write_member(
            &mut out,
            true,
            "Method",
            quoted.as_str(),
            Ghost(members),
            Ghost(JsonTree::Text(kind_name(m.method))),
        ) {
            Ok(_) => {},
            Err(error) => {
                return Err(error);
            },
        }
        proof {
            members = members + seq![("Method"@, JsonTree::Text(kind_name(m.method)))];
        }
        let quoted = match quote_text(self.id.as_str()) {
            Ok(quoted) => quoted,
            Err(error) => {
                return Err(error);
            },
        };
        match write_member(
            &mut out,
            false,
            "ID",
            quoted.as_str(),
            Ghost(members),
            Ghost(JsonTree::Text(m.id)),
        ) {
            Ok(_) => {},
            Err(error) => {
                return Err(error);
            },
        }
        proof {
            members = members + seq![("ID"@, JsonTree::Text(m.id))];
            assert(members =~= seq![("Method"@, JsonTree::Text(kind_name(m.method)))] + seq![
                ("ID"@, JsonTree::Text(m.id)),
            ]);
        }
        let first = match write_text(&mut out, false, "Sec", &self.sec, Ghost(members)) {
            Ok(first) => first,
            Err(error) => {
                return Err(error);
            },
        };
        proof {
            members = members + optional_member(m.sec.len() > 0, "Sec"@, JsonTree::Text(m.sec));
        }
        let first = match write_text(&mut out, first, "Ptype", &self.ptype, Ghost(members)) {
            Ok(first) => first,
            Err(error) => {
                return Err(error);
            },
        };
        proof {
            members = members + optional_member(
                m.ptype.len() > 0,
                "Ptype"@,
                JsonTree::Text(m.ptype),
            );
        }
        let first = match write_rule_member(
            &mut out,
            first,
            "OldRule",
            &self.old_rule,
            Ghost(members),
        ) {
            Ok(first) => first,
            Err(error) => {
                return Err(error);
            },
        };
        proof {
            members = members + optional_member(
                m.old_rule.len() > 0,
                "OldRule"@,
                rule_tree(m.old_rule),
            );
        }
        let first = match write_rules_member(
            &mut out,
            first,
            "OldRules",
            &self.old_rules,
            Ghost(members),
        ) {
            Ok(first) => first,
            Err(error) => {
                return Err(error);
            },
        };
        proof {
            members = members + optional_member(
                m.old_rules.len() > 0,
                "OldRules"@,
                rules_tree(m.old_rules),
            );
        }
        let first = match write_rule_member(
            &mut out,
            first,
            "NewRule",
            &self.new_rule,
            Ghost(members),
        ) {
            Ok(first) => first,
            Err(error) => {
                return Err(error);
            },
        };
        proof {
            members = members + optional_member(
                m.new_rule.len() > 0,
                "NewRule"@,
                rule_tree(m.new_rule),
            );
        }
        let first = match write_rules_member(
            &mut out,
            first,
            "NewRules",
            &self.new_rules,
            Ghost(members),
        ) {
            Ok(first) => first,
            Err(error) => {
                return Err(error);
            },
        };
        proof {
            members = members + optional_member(
                m.new_rules.len() > 0,
                "NewRules"@,
                rules_tree(m.new_rules),
            );
        }
        let first = match write_index_member(
            &mut out,
            first,
            "FieldIndex",
            self.field_index,
            Ghost(members),
        ) {
            Ok(first) => first,
            Err(error) => {
                return Err(error);
            },
        };
        proof {
            members = members + optional_member(
                m.field_index != 0,
                "FieldIndex"@,
                JsonTree::Number(Some(m.field_index)),
            );
        }
        match write_rule_member(&mut out, first, "FieldValues", &self.field_values, Ghost(members)) {
            Ok(_) => {},
            Err(error) => {
                return Err(error);
            },
        }
        proof {
            members = members + optional_member(
                m.field_values.len() > 0,
                "FieldValues"@,
                rule_tree(m.field_values),
            );
            assert(message_tree(m)->Object_0 == members);
        }
        out.append("}");
        Ok(out)
    }

    /// The byte form of this message: its wire form in UTF-8.
    pub fn encode(&self) -> (result: Result<Vec<u8>, WatcherError>)
        ensures
            result is Ok,
            result->Ok_0@ == encode_bytes(self@),
    {
        match self.to_json() {
            Ok(text) => Ok(text.as_str().as_bytes_vec()),
            Err(error) => Err(error),
        }
    }

    /// Reads a message from its byte form. Bytes that are no UTF-8, text
    /// that is no JSON, or JSON that holds no message, give a serialization
    /// error.
    pub fn decode(bytes: &[u8]) -> (result: Result<Message, WatcherError>)
        ensures
            decoded_as(result, decode_bytes(bytes@)),
    {
        match text_from_bytes(bytes) {
            Ok(text) => {
                proof {
                    encode_utf8_decode_utf8(text@);
                }
                Message::from_json(text)
            },
            Err(_) => Err(malformed("invalid UTF-8 in a message")),
        }
    }

    /// Reads a message from its wire form. Text that is no JSON, or JSON
    /// that holds no message, gives a serialization error.
    pub fn from_json(json: &str) -> (result: Result<Message, WatcherError>)
        ensures
            decoded_as(result, decode_message(json@)),
    {
        match parse_json(json) {
            Ok(value) => Message::from_value(&value),
            Err(error) => Err(WatcherError::Serialization(error)),
        }
    }
}

} // verus!
