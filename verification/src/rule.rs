//! A traffic-routing rule.

use vstd::prelude::*;
use crate::model::Keyed;

verus! {

/// One routing rule: a pattern and what to do with traffic that matches it.
///
/// The id is supplied by the caller. The rule type and the action are open
/// sets of names and are not interpreted here. The priority is carried as
/// data only: no operation of the store orders rules by it, so rules stay
/// in insertion order whatever their priorities are.
#[derive(Debug, PartialEq, Eq)]
pub struct ProxyRule {
    pub id: String,
    pub name: String,
    pub rule_type: String,
    pub value: String,
    pub action: String,
    pub priority: u32,
}

/// What a [`ProxyRule`] holds, as plain mathematical values.
pub struct ProxyRuleView {
    pub id: Seq<char>,
    pub name: Seq<char>,
    pub rule_type: Seq<char>,
    pub value: Seq<char>,
    pub action: Seq<char>,
    pub priority: u32,
}

impl Keyed for ProxyRuleView {
    open spec fn key(&self) -> Seq<char> {
        self.id
    }
}

impl View for ProxyRule {
    type V = ProxyRuleView;

    open spec fn view(&self) -> ProxyRuleView {
        ProxyRuleView {
            id: self.id@,
            name: self.name@,
            rule_type: self.rule_type@,
            value: self.value@,
            action: self.action@,
            priority: self.priority,
        }
    }
}

impl DeepView for ProxyRule {
    type V = ProxyRuleView;

    open spec fn deep_view(&self) -> ProxyRuleView {
        self@
    }
}

impl Clone for ProxyRule {
    /// A copy that holds the same values in every field.
    fn clone(&self) -> (copy: Self)
        ensures
            copy@ == self@,
    {
        ProxyRule {
            id: self.id.clone(),
            name: self.name.clone(),
            rule_type: self.rule_type.clone(),
            value: self.value.clone(),
            action: self.action.clone(),
            priority: self.priority,
        }
    }
}

} // verus!
