//! The two collections behind one lock each, for callers that share them.
//!
//! Every operation takes exactly one of the two locks, carries out one
//! operation of the store behind it and gives the lock back before it
//! returns. No operation holds both locks, and none calls another while
//! it holds one, so the profiles and the rules never wait for each other.
//!
//! What an operation finds behind the lock depends on what other callers
//! did before it. The contracts here therefore state only what holds
//! whatever was found; what is returned and changed for each content of the
//! collection is the contract of the operation of the same name on
//! [`ConfigStore`] and on [`RuleStore`].

use vstd::prelude::*;
use vstd::rwlock::RwLock;
use vstd::rwlock::RwLockPredicate;
use crate::config::ProxyConfig;
use crate::config_store::ConfigStore;
use crate::config_store::CONFIG_NOT_FOUND;
use crate::rule::ProxyRule;
use crate::rule_store::RuleStore;
use crate::rule_store::RULE_NOT_FOUND;

verus! {

/// The lock on the profiles admits every collection: it guards access, not
/// content.
struct AnyConfigs;

impl RwLockPredicate<ConfigStore> for AnyConfigs {
    open spec fn inv(self, store: ConfigStore) -> bool {
        true
    }
}

/// The lock on the rules admits every collection: it guards access, not
/// content.
struct AnyRules;

impl RwLockPredicate<RuleStore> for AnyRules {
    open spec fn inv(self, store: RuleStore) -> bool {
        true
    }
}

/// The profiles and the rules of one application, each behind a lock of
/// its own. Both collections start empty and live as long as this value;
/// nothing is loaded or saved.
///
/// All operations take `&self`, so one `SharedStore` can be handed to any
/// number of callers at once. Readers take the lock exclusively, as
/// writers do.
pub struct SharedStore {
    configs: RwLock<ConfigStore, AnyConfigs>,
    rules: RwLock<RuleStore, AnyRules>,
}

impl SharedStore {
    /// A store whose two collections are empty.
    pub fn new() -> (shared: Self) {
        SharedStore {
            configs: RwLock::new(ConfigStore::new(), Ghost(AnyConfigs)),
            rules: RwLock::new(RuleStore::new(), Ghost(AnyRules)),
        }
    }

    /// [`ConfigStore::list_configs`] under the lock on the profiles.
    pub fn list_configs(&self) -> (list: Vec<ProxyConfig>) {
        let (store, access) = self.configs.acquire_write();
        let list = store.list_configs();
        access.release_write(store);
        list
    }

    /// [`ConfigStore::add_config`] under the lock on the profiles. Never
    /// fails, and hands back the profile that it was given.
    pub fn add_config(&self, config: ProxyConfig) -> (stored: ProxyConfig)
        ensures
            stored@ == config@,
    {
        let (mut store, access) = self.configs.acquire_write();
        let stored = store.add_config(config);
        access.release_write(store);
        stored
    }

    /// [`ConfigStore::update_config`] under the lock on the profiles.
    pub fn update_config(&self, config: ProxyConfig) -> (outcome: Result<ProxyConfig, String>)
        ensures
            outcome matches Ok(stored) ==> stored@ == config@,
            outcome matches Err(message) ==> message@ == CONFIG_NOT_FOUND@,
    {
        let (mut store, access) = self.configs.acquire_write();
        let outcome = store.update_config(config);
        access.release_write(store);
        outcome
    }

    /// [`ConfigStore::delete_config`] under the lock on the profiles.
    pub fn delete_config(&self, id: &str) -> (outcome: Result<(), String>)
        ensures
            outcome matches Err(message) ==> message@ == CONFIG_NOT_FOUND@,
    {
        let (mut store, access) = self.configs.acquire_write();
        let outcome = store.delete_config(id);
        access.release_write(store);
        outcome
    }

    /// [`RuleStore::list_rules`] under the lock on the rules.
    pub fn list_rules(&self) -> (list: Vec<ProxyRule>) {
        let (store, access) = self.rules.acquire_write();
        let list = store.list_rules();
        access.release_write(store);
        list
    }

    /// [`RuleStore::add_rule`] under the lock on the rules. Never fails,
    /// and hands back the rule that it was given.
    pub fn add_rule(&self, rule: ProxyRule) -> (stored: ProxyRule)
        ensures
            stored@ == rule@,
    {
        let (mut store, access) = self.rules.acquire_write();
        let stored = store.add_rule(rule);
        access.release_write(store);
        stored
    }

    /// [`RuleStore::update_rule`] under the lock on the rules.
    pub fn update_rule(&self, rule: ProxyRule) -> (outcome: Result<ProxyRule, String>)
        ensures
            outcome matches Ok(stored) ==> stored@ == rule@,
            outcome matches Err(message) ==> message@ == RULE_NOT_FOUND@,
    {
        let (mut store, access) = self.rules.acquire_write();
        let outcome = store.update_rule(rule);
        access.release_write(store);
        outcome
    }

    /// [`RuleStore::delete_rule`] under the lock on the rules.
    pub fn delete_rule(&self, id: &str) -> (outcome: Result<(), String>)
        ensures
            outcome matches Err(message) ==> message@ == RULE_NOT_FOUND@,
    {
        let (mut store, access) = self.rules.acquire_write();
        let outcome = store.delete_rule(id);
        access.release_write(store);
        outcome
    }
}

} // verus!
