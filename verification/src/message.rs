//! The notification exchanged between watcher instances, and the policy
//! events it is built from.

use vstd::prelude::*;

verus! {

/// Which kind of policy mutation a message announces.
#[derive(Debug, Clone, Copy, PartialEq, Eq, Structural)]
pub enum UpdateType {
    Update,
    UpdateForAddPolicy,
    UpdateForRemovePolicy,
    UpdateForRemoveFilteredPolicy,
    UpdateForSavePolicy,
    UpdateForAddPolicies,
    UpdateForRemovePolicies,
    UpdateForUpdatePolicy,
    UpdateForUpdatePolicies,
}

/// One rule: its fields in order.
pub type RuleView = Seq<Seq<char>>;

/// The mathematical content of a [`Message`].
pub struct MessageView {
    pub method: UpdateType,
    pub id: Seq<char>,
    pub sec: Seq<char>,
    pub ptype: Seq<char>,
    pub old_rule: RuleView,
    pub old_rules: Seq<RuleView>,
    pub new_rule: RuleView,
    pub new_rules: Seq<RuleView>,
    pub field_index: int,
    pub field_values: RuleView,
}

/// A notification: the mutation kind, the publisher's identifier, and the
/// fields that the kind populates. The others stay empty.
#[derive(Debug, Clone)]
pub struct Message {
    pub method: UpdateType,
    pub id: String,
    pub sec: String,
    pub ptype: String,
    pub old_rule: Vec<String>,
    pub old_rules: Vec<Vec<String>>,
    pub new_rule: Vec<String>,
    pub new_rules: Vec<Vec<String>>,
    pub field_index: i32,
    pub field_values: Vec<String>,
}

impl View for Message {
    type V = MessageView;

    open spec fn view(&self) -> MessageView {
        MessageView {
            method: self.method,
            id: self.id@,
            sec: self.sec@,
            ptype: self.ptype@,
            old_rule: self.old_rule.deep_view(),
            old_rules: self.old_rules.deep_view(),
            new_rule: self.new_rule.deep_view(),
            new_rules: self.new_rules.deep_view(),
            field_index: self.field_index as int,
            field_values: self.field_values.deep_view(),
        }
    }
}

/// The message of kind `method` from `id` with every other field empty.
pub open spec fn blank_message(method: UpdateType, id: Seq<char>) -> MessageView {
    MessageView {
        method,
        id,
        sec: Seq::empty(),
        ptype: Seq::empty(),
        old_rule: Seq::empty(),
        old_rules: Seq::empty(),
        new_rule: Seq::empty(),
        new_rules: Seq::empty(),
        field_index: 0,
        field_values: Seq::empty(),
    }
}

impl Message {
    /// A message of kind `method` from `id`, all other fields empty.
    pub fn new(method: UpdateType, id: String) -> (m: Message)
        ensures
            m@ == blank_message(method, id@),
    {
        let m = Message {
            method,
            id,
            sec: String::new(),
            ptype: String::new(),
            old_rule: Vec::new(),
            old_rules: Vec::new(),
            new_rule: Vec::new(),
            new_rules: Vec::new(),
            field_index: 0,
            field_values: Vec::new(),
        };
        assert(m.old_rule.deep_view() =~= Seq::empty());
        assert(m.old_rules.deep_view() =~= Seq::empty());
        assert(m.new_rule.deep_view() =~= Seq::empty());
        assert(m.new_rules.deep_view() =~= Seq::empty());
        assert(m.field_values.deep_view() =~= Seq::empty());
        m
    }
}

/// Whether two rules have the same fields.
fn same_rule(a: &Vec<String>, b: &Vec<String>) -> (same: bool)
    ensures
        same == (a.deep_view() == b.deep_view()),
{
    if a.len() != b.len() {
        assert(a.deep_view().len() != b.deep_view().len());
        return false;
    }
    let mut i: usize = 0;
    while i < a.len()
        invariant
            i <= a.len(),
            a.len() == b.len(),
            forall|k: int| 0 <= k < i ==> a[k]@ == b[k]@,
        decreases a.len() - i,
    {
        if a[i] != b[i] {
            assert(a.deep_view()[i as int] != b.deep_view()[i as int]);
            return false;
        }
        i = i + 1;
    }
    assert(a.deep_view() =~= b.deep_view());
    true
}

/// Whether two lists hold the same rules.
fn same_rules(a: &Vec<Vec<String>>, b: &Vec<Vec<String>>) -> (same: bool)
    ensures
        same == (a.deep_view() == b.deep_view()),
{
    if a.len() != b.len() {
        assert(a.deep_view().len() != b.deep_view().len());
        return false;
    }
    let mut i: usize = 0;
    while i < a.len()
        invariant
            i <= a.len(),
            a.len() == b.len(),
            forall|k: int| 0 <= k < i ==> a[k].deep_view() == b[k].deep_view(),
        decreases a.len() - i,
    {
        if !same_rule(&a[i], &b[i]) {
            assert(a.deep_view()[i as int] != b.deep_view()[i as int]);
            return false;
        }
        i = i + 1;
    }
    assert(a.deep_view() =~= b.deep_view());
    true
}

impl PartialEq for Message {
    /// Two messages are equal where all their fields are.
    fn eq(&self, other: &Message) -> (same: bool) {
        self.method == other.method && self.id == other.id && self.sec == other.sec && self.ptype
            == other.ptype && same_rule(&self.old_rule, &other.old_rule) && same_rules(
            &self.old_rules,
            &other.old_rules,
        ) && same_rule(&self.new_rule, &other.new_rule) && same_rules(
            &self.new_rules,
            &other.new_rules,
        ) && self.field_index == other.field_index && same_rule(
            &self.field_values,
            &other.field_values,
        )
    }
}

impl vstd::std_specs::cmp::PartialEqSpecImpl for Message {
    open spec fn obeys_eq_spec() -> bool {
        true
    }

    open spec fn eq_spec(&self, other: &Message) -> bool {
        self@ == other@
    }
}

/// One change of the shared policy, as the policy engine reports it.
#[derive(Debug, Clone)]
pub enum EventData {
    /// Section, policy type, and the rule that was added.
    AddPolicy(String, String, Vec<String>),
    /// Section, policy type, and the rules that were added.
    AddPolicies(String, String, Vec<Vec<String>>),
    /// Section, policy type, and the rule that was removed.
    RemovePolicy(String, String, Vec<String>),
    /// Section, policy type, and the rules that were removed.
    RemovePolicies(String, String, Vec<Vec<String>>),
    /// Section, policy type, and the filters that selected what was removed.
    RemoveFilteredPolicy(String, String, Vec<Vec<String>>),
    /// Section, policy type, the rule that was replaced and its replacement.
    UpdatePolicy(String, String, Vec<String>, Vec<String>),
    /// Section, policy type, the rules that were replaced and their replacements.
    UpdatePolicies(String, String, Vec<Vec<String>>, Vec<Vec<String>>),
    /// The whole policy was saved.
    SavePolicy(Vec<Vec<String>>),
    /// The whole policy was cleared.
    ClearPolicy,
    /// The engine's cache was cleared.
    ClearCache,
}

/// The first filter of a filtered removal, or nothing where there is none.
pub open spec fn first_filter(filters: Seq<RuleView>) -> RuleView {
    if filters.len() > 0 {
        filters[0]
    } else {
        Seq::empty()
    }
}

/// The message that announces `event` on behalf of the instance `local_id`.
/// Each kind of event has one kind of message and fills a fixed set of its
/// fields; clearing the policy or the cache is announced as a plain update.
pub open spec fn event_message(event: EventData, local_id: Seq<char>) -> MessageView {
    match event {
        EventData::AddPolicy(sec, ptype, rule) => MessageView {
            sec: sec@,
            ptype: ptype@,
            new_rule: rule.deep_view(),
            ..blank_message(UpdateType::UpdateForAddPolicy, local_id)
        },
        EventData::AddPolicies(sec, ptype, rules) => MessageView {
            sec: sec@,
            ptype: ptype@,
            new_rules: rules.deep_view(),
            ..blank_message(UpdateType::UpdateForAddPolicies, local_id)
        },
        EventData::RemovePolicy(sec, ptype, rule) => MessageView {
            sec: sec@,
            ptype: ptype@,
            old_rule: rule.deep_view(),
            ..blank_message(UpdateType::UpdateForRemovePolicy, local_id)
        },
        EventData::RemovePolicies(sec, ptype, rules) => MessageView {
            sec: sec@,
            ptype: ptype@,
            old_rules: rules.deep_view(),
            ..blank_message(UpdateType::UpdateForRemovePolicies, local_id)
        },
        EventData::RemoveFilteredPolicy(sec, ptype, filters) => MessageView {
            sec: sec@,
            ptype: ptype@,
            field_values: first_filter(filters.deep_view()),
            ..blank_message(UpdateType::UpdateForRemoveFilteredPolicy, local_id)
        },
        EventData::UpdatePolicy(sec, ptype, old_rule, new_rule) => MessageView {
            sec: sec@,
            ptype: ptype@,
            old_rule: old_rule.deep_view(),
            new_rule: new_rule.deep_view(),
            ..blank_message(UpdateType::UpdateForUpdatePolicy, local_id)
        },
        EventData::UpdatePolicies(sec, ptype, old_rules, new_rules) => MessageView {
            sec: sec@,
            ptype: ptype@,
            old_rules: old_rules.deep_view(),
            new_rules: new_rules.deep_view(),
            ..blank_message(UpdateType::UpdateForUpdatePolicies, local_id)
        },
        EventData::SavePolicy(_) => blank_message(UpdateType::UpdateForSavePolicy, local_id),
        EventData::ClearPolicy => blank_message(UpdateType::Update, local_id),
        EventData::ClearCache => blank_message(UpdateType::Update, local_id),
    }
}

/// A copy of one rule.
fn copy_rule(rule: &Vec<String>) -> (copy: Vec<String>)
    ensures
        copy.deep_view() == rule.deep_view(),
{
    let mut copy: Vec<String> = Vec::new();
    let mut i: usize = 0;
    while i < rule.len()
        invariant
            i <= rule.len(),
            copy.len() == i,
            forall|k: int| 0 <= k < i ==> copy[k]@ == rule[k]@,
        decreases rule.len() - i,
    {
        copy.push(rule[i].clone());
        i = i + 1;
    }
    assert(copy.deep_view() =~= rule.deep_view());
    copy
}

/// A copy of a list of rules.
fn copy_rules(rules: &Vec<Vec<String>>) -> (copy: Vec<Vec<String>>)
    ensures
        copy.deep_view() == rules.deep_view(),
{
    let mut copy: Vec<Vec<String>> = Vec::new();
    let mut i: usize = 0;
    while i < rules.len()
        invariant
            i <= rules.len(),
            copy.len() == i,
            forall|k: int| 0 <= k < i ==> copy[k].deep_view() == rules[k].deep_view(),
        decreases rules.len() - i,
    {
        copy.push(copy_rule(&rules[i]));
        i = i + 1;
    }
    assert(copy.deep_view() =~= rules.deep_view());
    copy
}

/// Builds the message that announces `event_data` on behalf of `local_id`.
pub fn event_data_to_message(event_data: &EventData, local_id: &str) -> (message: Message)
    ensures
        message@ == event_message(*event_data, local_id@),
{
    let id = String::from_str(local_id);
    match event_data {
        EventData::AddPolicy(sec, ptype, rule) => {
            let mut message = Message::new(UpdateType::UpdateForAddPolicy, id);
            message.sec = sec.clone();
            message.ptype = ptype.clone();
            message.new_rule = copy_rule(rule);
            message
        },
        EventData::AddPolicies(sec, ptype, rules) => {
            let mut message = Message::new(UpdateType::UpdateForAddPolicies, id);
            message.sec = sec.clone();
            message.ptype = ptype.clone();
            message.new_rules = copy_rules(rules);
            message
        },
        EventData::RemovePolicy(sec, ptype, rule) => {
            let mut message = Message::new(UpdateType::UpdateForRemovePolicy, id);
            message.sec = sec.clone();
            message.ptype = ptype.clone();
            message.old_rule = copy_rule(rule);
            message
        },
        EventData::RemovePolicies(sec, ptype, rules) => {
            let mut message = Message::new(UpdateType::UpdateForRemovePolicies, id);
            message.sec = sec.clone();
            message.ptype = ptype.clone();
            message.old_rules = copy_rules(rules);
            message
        },
        EventData::RemoveFilteredPolicy(sec, ptype, filters) => {
            let mut message = Message::new(UpdateType::UpdateForRemoveFilteredPolicy, id);
            message.sec = sec.clone();
            message.ptype = ptype.clone();
            if filters.len() > 0 {
                message.field_values = copy_rule(&filters[0]);
            }
            message
        },
        EventData::UpdatePolicy(sec, ptype, old_rule, new_rule) => {
            let mut message = Message::new(UpdateType::UpdateForUpdatePolicy, id);
            message.sec = sec.clone();
            message.ptype = ptype.clone();
            message.old_rule = copy_rule(old_rule);
            message.new_rule = copy_rule(new_rule);
            message
        },
        EventData::UpdatePolicies(sec, ptype, old_rules, new_rules) => {
            let mut message = Message::new(UpdateType::UpdateForUpdatePolicies, id);
            message.sec = sec.clone();
            message.ptype = ptype.clone();
            message.old_rules = copy_rules(old_rules);
            message.new_rules = copy_rules(new_rules);
            message
        },
        EventData::SavePolicy(_) => Message::new(UpdateType::UpdateForSavePolicy, id),
        EventData::ClearPolicy => Message::new(UpdateType::Update, id),
        EventData::ClearCache => Message::new(UpdateType::Update, id),
    }
}

} // verus!
