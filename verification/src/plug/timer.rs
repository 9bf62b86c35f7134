//! The countdown timer of a plug.

use vstd::prelude::*;
use vstd::string::StringExecFns;
use serde_json::Value;
use std::time::Duration;
use crate::clock;
use crate::clock::duration_secs;
use crate::error::Result;
use crate::fields::{
    singleton,
    array_at,
    array_field,
    i64_at,
    i64_field,
    is_vacant,
    text_at,
    text_field,
    u32_at,
    u32_field,
    u64_at,
    u64_field,
    vacant,
};
use crate::json;
use crate::json::{empty_object, json_of, json_text, Json};
use crate::proto::{Request, Socket};
use crate::transport::{acknowledged, CachePolicy, Transport};

verus! {

/// The `Timer` trait represents devices that can switch after a delay.
///
/// A device model says with the five predicates below what the commands
/// guarantee; they are held to it. A model that says nothing guarantees
/// nothing.
pub trait Timer {
    /// What holds of the device `self` and of the `answer` after the device
    /// `before` was asked for its timer rules.
    open spec fn rules_asked(&self, before: &Self, answer: Result<RuleList>) -> bool {
        true
    }

    /// What holds of the device `self` and of the `answer` after the device
    /// `before` was asked to add `rule`.
    open spec fn rule_added(&self, before: &Self, rule: Rule, answer: Result<String>) -> bool {
        true
    }

    /// What holds of the device `self` and of the `answer` after the device
    /// `before` was asked to replace the rule `id` by `rule`.
    open spec fn rule_edited(
        &self,
        before: &Self,
        id: Seq<char>,
        rule: Rule,
        answer: Result<()>,
    ) -> bool {
        true
    }

    /// What holds of the device `self` and of the `answer` after the device
    /// `before` was asked to delete the rule `id`.
    open spec fn rule_deleted(&self, before: &Self, id: Seq<char>, answer: Result<()>) -> bool {
        true
    }

    /// What holds of the device `self` and of the `answer` after the device
    /// `before` was asked to delete every rule.
    open spec fn rules_deleted(&self, before: &Self, answer: Result<()>) -> bool {
        true
    }

    fn get_timer_rules(&mut self) -> (answer: Result<RuleList>)
        ensures
            final(self).rules_asked(old(self), answer),
    ;

    fn add_timer_rule(&mut self, rule: Rule) -> (answer: Result<String>)
        ensures
            final(self).rule_added(old(self), rule, answer),
    ;

    fn edit_timer_rule(&mut self, id: &str, rule: Rule) -> (answer: Result<()>)
        ensures
            final(self).rule_edited(old(self), id@, rule, answer),
    ;

    fn delete_timer_rule_with_id(&mut self, id: &str) -> (answer: Result<()>)
        ensures
            final(self).rule_deleted(old(self), id@, answer),
    ;

    fn delete_all_timer_rules(&mut self) -> (answer: Result<()>)
        ensures
            final(self).rules_deleted(old(self), answer),
    ;
}

/// A timer rule: switch the plug on or off after a delay.
#[derive(Clone, Debug)]
pub struct Rule {
    /// The power state to switch to: 1 for on, 0 for off.
    pub act: u32,
    /// The delay, in seconds.
    pub delay: u64,
    /// Whether the rule is enabled: 1 or 0.
    pub enable: u32,
    /// The name of the rule.
    pub name: String,
    /// The id that the device gave the rule.
    pub id: Option<String>,
    /// The time that remains, in seconds.
    pub remain: Option<i64>,
}

/// The timer rules of a plug.
#[derive(Debug)]
pub struct RuleList {
    pub rule_list: Vec<Rule>,
}

impl Rule {
    /// Whether `self` is the rule that `document` holds.
    pub open spec fn describes(&self, document: Json) -> bool {
        &&& u32_at(document, "act"@) == Some(self.act)
        &&& u64_at(document, "delay"@) == Some(self.delay)
        &&& u32_at(document, "enable"@) == Some(self.enable)
        &&& text_at(document, "name"@) == Some(self.name@)
        &&& match self.id {
            Some(id) => text_at(document, "id"@) == Some(id@),
            None => vacant(document, "id"@),
        }
        &&& match self.remain {
            Some(remain) => i64_at(document, "remain"@) == Some(remain),
            None => vacant(document, "remain"@),
        }
    }

    /// Whether `document` can be read as a rule.
    pub open spec fn readable(document: Json) -> bool {
        &&& u32_at(document, "act"@) is Some
        &&& u64_at(document, "delay"@) is Some
        &&& u32_at(document, "enable"@) is Some
        &&& text_at(document, "name"@) is Some
        &&& vacant(document, "id"@) || text_at(document, "id"@) is Some
        &&& vacant(document, "remain"@) || i64_at(document, "remain"@) is Some
    }

    /// Reads one rule.
    pub fn from_json(value: &Value) -> (r: Result<Rule>)
        ensures
            match r {
                Ok(rule) => rule.describes(json_of(*value)),
                Err(e) => !Rule::readable(json_of(*value)) && e.is_unexpected(),
            },
    {
        let act = match u32_field(value, "act") {
            Ok(n) => n,
            Err(e) => {
                return Err(e);
            },
        };
        let delay = match u64_field(value, "delay") {
            Ok(n) => n,
            Err(e) => {
                return Err(e);
            },
        };
        let enable = match u32_field(value, "enable") {
            Ok(n) => n,
            Err(e) => {
                return Err(e);
            },
        };
        let name = match text_field(value, "name") {
            Ok(s) => s,
            Err(e) => {
                return Err(e);
            },
        };
        let id = if is_vacant(value, "id") {
            None
        } else {
            match text_field(value, "id") {
                Ok(s) => Some(s),
                Err(e) => {
                    return Err(e);
                },
            }
        };
        let remain = if is_vacant(value, "remain") {
            None
        } else {
            match i64_field(value, "remain") {
                Ok(n) => Some(n),
                Err(e) => {
                    return Err(e);
                },
            }
        };
        Ok(Rule { act, delay, enable, name, id, remain })
    }

    /// A builder for a rule that switches the plug on after one second.
    pub fn builder() -> (builder: Builder)
        ensures
            builder@ == (Plan { turn_on: true, enable_rule: true, delay_secs: 1, name: "timer"@ }),
    {
        Builder::new()
    }

    /// What a rule tells the device: `{"enable": .., "delay": .., "act": ..,
    /// "name": ..}`.
    pub open spec fn argument(&self) -> Json {
        empty_object().with("enable"@, Json::Int(self.enable as int)).with(
            "delay"@,
            Json::Int(self.delay as int),
        ).with("act"@, Json::Int(self.act as int)).with("name"@, Json::Text(self.name@))
    }

    /// The argument that adds this rule.
    pub fn to_argument(&self) -> (arg: Value)
        ensures
            json_of(arg) == self.argument(),
    {
        let mut arg = json::new_object();
        json::set_member(&mut arg, "enable", json::from_u64(self.enable as u64));
        json::set_member(&mut arg, "delay", json::from_u64(self.delay));
        json::set_member(&mut arg, "act", json::from_u64(self.act as u64));
        json::set_member(&mut arg, "name", json::from_str(self.name.as_str()));
        arg
    }

    /// The argument that replaces the rule `id` by this rule.
    pub fn to_edit_argument(&self, id: &str) -> (arg: Value)
        ensures
            json_of(arg) == self.argument().with("id"@, Json::Text(id@)),
    {
        let mut arg = self.to_argument();
        json::set_member(&mut arg, "id", json::from_str(id));
        arg
    }
}

/// Whether `list` holds the rules of the reply `document`, in the same
/// order.
pub open spec fn rules_of(list: Seq<Rule>, document: Json) -> bool {
    match array_at(document, "rule_list"@) {
        Some(items) => list.len() == items.len() && forall|i: int|
            0 <= i < list.len() ==> (#[trigger] list[i]).describes(items[i]),
        None => false,
    }
}

/// Whether `document` can be read as a list of rules.
pub open spec fn rules_readable(document: Json) -> bool {
    match array_at(document, "rule_list"@) {
        Some(items) => forall|i: int| 0 <= i < items.len() ==> Rule::readable(#[trigger] items[i]),
        None => false,
    }
}

impl RuleList {
    /// Reads the rules out of a reply.
    pub fn from_json(value: &Value) -> (r: Result<RuleList>)
        ensures
            match r {
                Ok(rules) => rules_of(rules.rule_list@, json_of(*value)),
                Err(e) => !rules_readable(json_of(*value)) && e.is_unexpected(),
            },
    {
        let items = match array_field(value, "rule_list") {
            Ok(items) => items,
            Err(e) => {
                return Err(e);
            },
        };
        let ghost documents = array_at(json_of(*value), "rule_list"@).unwrap();
        let mut list: Vec<Rule> = Vec::new();
        let mut i: usize = 0;
        while i < items.len()
            invariant
                i <= items@.len(),
                array_at(json_of(*value), "rule_list"@) == Some(documents),
                documents == Seq::new(items@.len(), |k: int| json_of(items@[k])),
                list@.len() == i,
                forall|k: int| 0 <= k < i ==> (#[trigger] list@[k]).describes(documents[k]),
            decreases items@.len() - i,
        {
            match Rule::from_json(&items[i]) {
                Ok(rule) => {
                    list.push(rule);
                },
                Err(e) => {
                    proof {
                        let listed = array_at(json_of(*value), "rule_list"@)->Some_0;
                        assert(!Rule::readable(listed[i as int]));
                    }
                    return Err(e);
                },
            }
            i += 1;
        }
        Ok(RuleList { rule_list: list })
    }

    /// The number of rules.
    pub fn len(&self) -> (n: usize)
        ensures
            n == self.rule_list@.len(),
    {
        self.rule_list.len()
    }

    /// Whether there is no rule.
    pub fn is_empty(&self) -> (empty: bool)
        ensures
            empty == (self.rule_list@.len() == 0),
    {
        self.rule_list.len() == 0
    }
}

/// What a [`Builder`] holds.
pub struct Plan {
    pub turn_on: bool,
    pub enable_rule: bool,
    pub delay_secs: nat,
    pub name: Seq<char>,
}

/// Builds a timer [`Rule`].
pub struct Builder {
    turn_on: bool,
    enable_rule: bool,
    delay: u64,
    name: String,
}

impl View for Builder {
    type V = Plan;

    closed spec fn view(&self) -> Plan {
        Plan {
            turn_on: self.turn_on,
            enable_rule: self.enable_rule,
            delay_secs: self.delay as nat,
            name: self.name@,
        }
    }
}

impl Builder {
    fn new() -> (builder: Builder)
        ensures
            builder@ == (Plan { turn_on: true, enable_rule: true, delay_secs: 1, name: "timer"@ }),
    {
        Builder { turn_on: true, enable_rule: true, delay: 1, name: String::from_str("timer") }
    }

    /// Whether the rule switches the plug on, or off.
    pub fn turn_on(&mut self, turn_on: bool) -> (builder: &mut Builder)
        ensures
            builder@ == (Plan { turn_on, ..old(self)@ }),
            final(self)@ == final(builder)@,
    {
        self.turn_on = turn_on;
        self
    }

    /// Whether the rule is enabled.
    pub fn enable(&mut self, enable_rule: bool) -> (builder: &mut Builder)
        ensures
            builder@ == (Plan { enable_rule, ..old(self)@ }),
            final(self)@ == final(builder)@,
    {
        self.enable_rule = enable_rule;
        self
    }

    /// The delay after which the rule acts; its whole seconds count.
    pub fn delay(&mut self, delay: Duration) -> (builder: &mut Builder)
        ensures
            builder@ == (Plan { delay_secs: duration_secs(delay), ..old(self)@ }),
            final(self)@ == final(builder)@,
    {
        self.delay = clock::as_secs(&delay);
        self
    }

    /// The name of the rule.
    pub fn name(&mut self, name: &str) -> (builder: &mut Builder)
        ensures
            builder@ == (Plan { name: name@, ..old(self)@ }),
            final(self)@ == final(builder)@,
    {
        self.name = String::from_str(name);
        self
    }

    /// The rule as planned, without id and without remaining time.
    pub fn build(&mut self) -> (rule: Rule)
        ensures
            final(self)@ == old(self)@,
            rule.act == if old(self)@.turn_on {
                1u32
            } else {
                0u32
            },
            rule.enable == if old(self)@.enable_rule {
                1u32
            } else {
                0u32
            },
            rule.delay == old(self)@.delay_secs,
            rule.name@ == old(self)@.name,
            rule.id is None,
            rule.remain is None,
    {
        let act: u32 = if self.turn_on {
            1
        } else {
            0
        };
        let enable: u32 = if self.enable_rule {
            1
        } else {
            0
        };
        Rule { act, delay: self.delay, enable, name: self.name.clone(), id: None, remain: None }
    }
}

/// The id that the reply to a new rule holds, as JSON text; `null` where
/// the reply holds none.
pub open spec fn rule_id_text(reply: Json) -> Seq<char> {
    match reply.get("id"@) {
        Some(id) => json_text(id),
        None => json_text(Json::Null),
    }
}

/// The id that the reply to a new rule holds, as JSON text.
pub fn rule_id(reply: &Value) -> (id: String)
    ensures
        id@ == rule_id_text(json_of(*reply)),
{
    match json::member(reply, "id") {
        Some(id) => json::to_text(id),
        None => json::to_text(&json::null()),
    }
}

/// The argument that names one rule: `{"id": ..}`.
pub open spec fn rule_id_document(id: Seq<char>) -> Json {
    empty_object().with("id"@, Json::Text(id))
}

/// Whether `rules` is what reading rules out of the `answer` of the plug
/// gives: the rules that the answer holds, or the error of the exchange, or
/// a serialization error for an answer that holds none.
pub open spec fn rules_read(answer: Result<Value>, rules: Result<RuleList>) -> bool {
    match answer {
        Err(e) => rules matches Err(failed) && failed == e,
        Ok(value) => match rules {
            Ok(found) => rules_of(found.rule_list@, json_of(value)),
            Err(e) => !rules_readable(json_of(value)) && e.is_unexpected(),
        },
    }
}

/// Whether `id` is what adding a rule makes of the `answer` of the plug:
/// the id that the answer holds, as JSON text, or the error of the
/// exchange.
pub open spec fn rule_id_read(answer: Result<Value>, id: Result<String>) -> bool {
    match answer {
        Err(e) => id matches Err(failed) && failed == e,
        Ok(value) => id matches Ok(text) && text@ == rule_id_text(json_of(value)),
    }
}

/// The timer commands of a plug.
pub struct TimerSettings {
    ns: String,
}

impl TimerSettings {
    /// The namespace that the commands are addressed to.
    pub closed spec fn namespace(&self) -> Seq<char> {
        self.ns@
    }

    /// The timer commands in the namespace `ns`.
    pub fn new(ns: &str) -> (settings: TimerSettings)
        ensures
            settings.namespace() == ns@,
    {
        TimerSettings { ns: String::from_str(ns) }
    }

    /// The timer rules of the plug, from the cache while they are valid there.
    pub fn get_rules<S: Socket>(&self, transport: &mut Transport<S>) -> (r: Result<RuleList>)
        ensures
            final(transport).executed(
                old(transport),
                CachePolicy::ReadThrough,
                self.namespace(),
                "get_rules"@,
                Json::Null,
                |answer: Result<Value>, told: Result<RuleList>| rules_read(answer, told),
                r,
            ),
            r matches Err(e) ==> e.is_io() || e.is_json(),
    {
        let request = Request::new(self.ns.as_str(), "get_rules", None);
        match transport.execute(request, CachePolicy::ReadThrough) {
            Ok(response) => RuleList::from_json(&response),
            Err(e) => Err(e),
        }
    }

    /// Adds `rule` and returns the id that the plug gave it. What is cached of
    /// the timer namespace is dropped first.
    pub fn add_rule<S: Socket>(
        &self,
        transport: &mut Transport<S>,
        rule: Rule,
    ) -> (r: Result<String>)
        ensures
            final(transport).executed(
                old(transport),
                CachePolicy::InvalidateNamespace,
                self.namespace(),
                "add_rule"@,
                rule.argument(),
                |answer: Result<Value>, told: Result<String>| rule_id_read(answer, told),
                r,
            ),
            r matches Err(e) ==> e.is_io() || e.is_json(),
    {
        let request = Request::new(self.ns.as_str(), "add_rule", Some(rule.to_argument()));
        match transport.execute(request, CachePolicy::InvalidateNamespace) {
            Ok(response) => Ok(rule_id(&response)),
            Err(e) => Err(e),
        }
    }

    /// Replaces the rule `id` by `rule`. What is cached of the timer namespace
    /// is dropped first.
    pub fn edit_rule<S: Socket>(
        &self,
        transport: &mut Transport<S>,
        id: &str,
        rule: Rule,
    ) -> (r: Result<()>)
        ensures
            final(transport).executed(
                old(transport),
                CachePolicy::InvalidateNamespace,
                self.namespace(),
                "edit_rule"@,
                rule.argument().with("id"@, Json::Text(id@)),
                |answer: Result<Value>, told: Result<()>| acknowledged(answer, told),
                r,
            ),
            r matches Err(e) ==> e.is_io() || e.is_json(),
    {
        let request = Request::new(self.ns.as_str(), "edit_rule", Some(rule.to_edit_argument(id)));
        match transport.execute(request, CachePolicy::InvalidateNamespace) {
            Ok(response) => Ok(()),
            Err(e) => Err(e),
        }
    }

    /// Deletes the rule `id`. What is cached of the timer namespace is dropped
    /// first.
    pub fn delete_rule_with_id<S: Socket>(
        &self,
        transport: &mut Transport<S>,
        id: &str,
    ) -> (r: Result<()>)
        ensures
            final(transport).executed(
                old(transport),
                CachePolicy::InvalidateNamespace,
                self.namespace(),
                "delete_rule"@,
                rule_id_document(id@),
                |answer: Result<Value>, told: Result<()>| acknowledged(answer, told),
                r,
            ),
            r matches Err(e) ==> e.is_io() || e.is_json(),
    {
        let arg = singleton("id", json::from_str(id));
        let request = Request::new(self.ns.as_str(), "delete_rule", Some(arg));
        match transport.execute(request, CachePolicy::InvalidateNamespace) {
            Ok(response) => Ok(()),
            Err(e) => Err(e),
        }
    }

    /// Deletes every rule. What is cached of the timer namespace is dropped
    /// first.
    pub fn delete_all_rules<S: Socket>(&self, transport: &mut Transport<S>) -> (r: Result<()>)
        ensures
            final(transport).executed(
                old(transport),
                CachePolicy::InvalidateNamespace,
                self.namespace(),
                "delete_all_rules"@,
                Json::Null,
                |answer: Result<Value>, told: Result<()>| acknowledged(answer, told),
                r,
            ),
            r matches Err(e) ==> e.is_io() || e.is_json(),
    {
        let request = Request::new(self.ns.as_str(), "delete_all_rules", None);
        match transport.execute(request, CachePolicy::InvalidateNamespace) {
            Ok(response) => Ok(()),
            Err(e) => Err(e),
        }
    }
}

} // verus!
