//! The collection of routing rules and its four operations.

use vstd::prelude::*;
use crate::model::contains_id;
use crate::model::first_with_id;
use crate::model::has_id_at;
use crate::model::is_first_with_id;
use crate::model::lemma_first_with_id_is;
use crate::model::removed;
use crate::model::replaced;
use crate::rule::ProxyRule;
use crate::rule::ProxyRuleView;
use crate::text::same_text;

verus! {

/// The message with which an update or a removal fails when no stored rule
/// carries the id that was asked for.
pub const RULE_NOT_FOUND: &'static str = "Proxy rule not found";

/// The routing rules, in insertion order.
///
/// A store starts empty. Rules enter it only through
/// [`RuleStore::add_rule`], change only through [`RuleStore::update_rule`]
/// and leave only through [`RuleStore::delete_rule`]. Nothing checks that
/// ids are distinct, and nothing sorts by priority.
pub struct RuleStore {
    entries: Vec<ProxyRule>,
}

impl View for RuleStore {
    type V = Seq<ProxyRuleView>;

    closed spec fn view(&self) -> Seq<ProxyRuleView> {
        self.entries.deep_view()
    }
}

impl RuleStore {
    /// An empty store.
    pub fn new() -> (store: Self)
        ensures
            store@ == Seq::<ProxyRuleView>::empty(),
    {
        RuleStore { entries: Vec::new() }
    }

    /// The number of stored rules.
    pub fn len(&self) -> (n: usize)
        ensures
            n == self@.len(),
    {
        self.entries.len()
    }

    /// A full copy of the collection, in stored order.
    pub fn list_rules(&self) -> (list: Vec<ProxyRule>)
        ensures
            list.deep_view() == self@,
    {
        let list = self.entries.clone();
        assert(list.deep_view() =~= self.entries.deep_view());
        list
    }

    /// Appends `rule` at the end, whatever its id and whatever is stored
    /// already, and hands the rule back.
    pub fn add_rule(&mut self, rule: ProxyRule) -> (stored: ProxyRule)
        ensures
            final(self)@ == old(self)@.push(rule@),
            stored@ == rule@,
    {
        self.entries.push(rule.clone());
        assert(self.entries.deep_view() =~= old(self).entries.deep_view().push(rule@));
        rule
    }

    /// Replaces the first stored rule whose id is that of `rule` by `rule`,
    /// in place, and hands `rule` back. Where no stored rule has that id,
    /// the store is left as it was and the call fails with
    /// [`RULE_NOT_FOUND`].
    pub fn update_rule(&mut self, rule: ProxyRule) -> (outcome: Result<ProxyRule, String>)
        ensures
            outcome is Ok <==> contains_id(old(self)@, rule@.id),
            final(self)@ == replaced(old(self)@, rule@),
            outcome is Ok ==> is_first_with_id(
                old(self)@,
                rule@.id,
                first_with_id(old(self)@, rule@.id),
            ),
            outcome matches Ok(stored) ==> stored@ == rule@,
            outcome matches Err(message) ==> message@ == RULE_NOT_FOUND@,
    {
        match self.position(rule.id.as_str()) {
            Some(index) => {
                proof {
                    lemma_first_with_id_is(self@, rule@.id, index as int);
                }
                self.entries.set(index, rule.clone());
                assert(self.entries.deep_view() =~= old(self).entries.deep_view().update(
                    index as int,
                    rule@,
                ));
                Ok(rule)
            },
            None => Err(RULE_NOT_FOUND.to_owned()),
        }
    }

    /// Removes the first stored rule whose id is `id`; the rules behind it
    /// move one place to the left. Where no stored rule has that id, the
    /// store is left as it was and the call fails with [`RULE_NOT_FOUND`].
    pub fn delete_rule(&mut self, id: &str) -> (outcome: Result<(), String>)
        ensures
            outcome is Ok <==> contains_id(old(self)@, id@),
            final(self)@ == removed(old(self)@, id@),
            outcome is Ok ==> is_first_with_id(old(self)@, id@, first_with_id(old(self)@, id@)),
            outcome matches Err(message) ==> message@ == RULE_NOT_FOUND@,
    {
        match self.position(id) {
            Some(index) => {
                proof {
                    lemma_first_with_id_is(self@, id@, index as int);
                }
                self.entries.remove(index);
                assert(self.entries.deep_view() =~= old(self).entries.deep_view().remove(
                    index as int,
                ));
                Ok(())
            },
            None => Err(RULE_NOT_FOUND.to_owned()),
        }
    }

    /// The position of the first stored rule whose id is `id`, if any.
    fn position(&self, id: &str) -> (found: Option<usize>)
        ensures
            match found {
                Some(index) => is_first_with_id(self@, id@, index as int),
                None => !contains_id(self@, id@),
            },
    {
        let mut index: usize = 0;
        while index < self.entries.len()
            invariant
                index <= self.entries.len(),
                forall|j: int| 0 <= j < index ==> !has_id_at(self@, id@, j),
            decreases self.entries.len() - index,
        {
            if same_text(self.entries[index].id.as_str(), id) {
                return Some(index);
            }
            index += 1;
        }
        None
    }
}

} // verus!
