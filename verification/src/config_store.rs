//! The collection of proxy connection profiles and its four operations.

use vstd::prelude::*;
use crate::config::ProxyConfig;
use crate::config::ProxyConfigView;
use crate::model::contains_id;
use crate::model::first_with_id;
use crate::model::is_first_with_id;
use crate::model::has_id_at;
use crate::model::lemma_first_with_id_is;
use crate::model::removed;
use crate::model::replaced;
use crate::text::same_text;

verus! {

/// The message with which an update or a removal fails when no stored
/// profile carries the id that was asked for.
pub const CONFIG_NOT_FOUND: &'static str = "Proxy config not found";

/// The proxy connection profiles, in insertion order.
///
/// A store starts empty. Profiles enter it only through
/// [`ConfigStore::add_config`], change only through
/// [`ConfigStore::update_config`] and leave only through
/// [`ConfigStore::delete_config`]. Nothing checks that ids are distinct.
pub struct ConfigStore {
    entries: Vec<ProxyConfig>,
}

impl View for ConfigStore {
    type V = Seq<ProxyConfigView>;

    closed spec fn view(&self) -> Seq<ProxyConfigView> {
        self.entries.deep_view()
    }
}

impl ConfigStore {
    /// An empty store.
    pub fn new() -> (store: Self)
        ensures
            store@ == Seq::<ProxyConfigView>::empty(),
    {
        ConfigStore { entries: Vec::new() }
    }

    /// The number of stored profiles.
    pub fn len(&self) -> (n: usize)
        ensures
            n == self@.len(),
    {
        self.entries.len()
    }

    /// A full copy of the collection, in stored order.
    pub fn list_configs(&self) -> (list: Vec<ProxyConfig>)
        ensures
            list.deep_view() == self@,
    {
        let list = self.entries.clone();
        assert(list.deep_view() =~= self.entries.deep_view());
        list
    }

    /// Appends `config` at the end, whatever its id and whatever is stored
    /// already, and hands the profile back.
    pub fn add_config(&mut self, config: ProxyConfig) -> (stored: ProxyConfig)
        ensures
            final(self)@ == old(self)@.push(config@),
            stored@ == config@,
    {
        self.entries.push(config.clone());
        assert(self.entries.deep_view() =~= old(self).entries.deep_view().push(config@));
        config
    }

    /// Replaces the first stored profile whose id is that of `config` by
    /// `config`, in place, and hands `config` back. Where no stored profile
    /// has that id, the store is left as it was and the call fails with
    /// [`CONFIG_NOT_FOUND`].
    pub fn update_config(&mut self, config: ProxyConfig) -> (outcome: Result<ProxyConfig, String>)
        ensures
            outcome is Ok <==> contains_id(old(self)@, config@.id),
            final(self)@ == replaced(old(self)@, config@),
            outcome is Ok ==> is_first_with_id(
                old(self)@,
                config@.id,
                first_with_id(old(self)@, config@.id),
            ),
            outcome matches Ok(stored) ==> stored@ == config@,
            outcome matches Err(message) ==> message@ == CONFIG_NOT_FOUND@,
    {
        match self.position(config.id.as_str()) {
            Some(index) => {
                proof {
                    lemma_first_with_id_is(self@, config@.id, index as int);
                }
                self.entries.set(index, config.clone());
                assert(self.entries.deep_view() =~= old(self).entries.deep_view().update(
                    index as int,
                    config@,
                ));
                Ok(config)
            },
            None => Err(CONFIG_NOT_FOUND.to_owned()),
        }
    }

    /// Removes the first stored profile whose id is `id`; the profiles
    /// behind it move one place to the left. Where no stored profile has
    /// that id, the store is left as it was and the call fails with
    /// [`CONFIG_NOT_FOUND`].
    pub fn delete_config(&mut self, id: &str) -> (outcome: Result<(), String>)
        ensures
            outcome is Ok <==> contains_id(old(self)@, id@),
            final(self)@ == removed(old(self)@, id@),
            outcome is Ok ==> is_first_with_id(old(self)@, id@, first_with_id(old(self)@, id@)),
            outcome matches Err(message) ==> message@ == CONFIG_NOT_FOUND@,
    {
        match self.position(id) {
            Some(index) => {
                proof {
                    lemma_first_with_id_is(self@, id@, index as int);
                }
                self.entries.remove(index);
                assert(self.entries.deep_view() =~= old(self).entries.deep_view().remove(
                    index as int,
                ));
                Ok(())
            },
            None => Err(CONFIG_NOT_FOUND.to_owned()),
        }
    }

    /// The position of the first stored profile whose id is `id`, if any.
    fn position(&self, id: &str) -> (found: Option<usize>)
        ensures
            match found {
                Some(index) => is_first_with_id(self@, id@, index as int),
                None => !contains_id(self@, id@),
            },
    {
        let mut index: usize = 0;
        while index < self.entries.len()
            invariant
                index <= self.entries.len(),
                forall|j: int| 0 <= j < index ==> !has_id_at(self@, id@, j),
            decreases self.entries.len() - index,
        {
            if same_text(self.entries[index].id.as_str(), id) {
                return Some(index);
            }
            index += 1;
        }
        None
    }
}

} // verus!
