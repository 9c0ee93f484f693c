//! The table of running listeners: for each listener key, the service
//! configuration whose routes the listener currently serves.

use vstd::prelude::*;
use dashmap::DashMap;
use crate::app_config::{ServiceConfig, ServiceConfigView};

verus! {

#[verifier::external_type_specification]
#[verifier::external_body]
#[verifier::reject_recursive_types(K)]
#[verifier::reject_recursive_types(V)]
#[verifier::reject_recursive_types(S)]
pub struct ExDashMap<K, V, S>(DashMap<K, V, S>);

/// What a `dashmap::DashMap` from listener keys to configurations holds:
/// each key's text with the value stored under it.
pub uninterp spec fn mapping_entries(m: DashMap<String, ServiceConfig>) -> Map<
    Seq<char>,
    ServiceConfigView,
>;

/// `DashMap::new`: a map that holds nothing.
#[verifier::external_body]
fn mapping_new() -> (m: DashMap<String, ServiceConfig>)
    ensures
        mapping_entries(m).dom() == Set::<Seq<char>>::empty(),
{
    DashMap::new()
}

/// `DashMap::contains_key`: whether a value is stored under the key.
#[verifier::external_body]
fn mapping_contains_key(m: &DashMap<String, ServiceConfig>, key: &str) -> (r: bool)
    ensures
        r == mapping_entries(*m).dom().contains(key@),
{
    m.contains_key(key)
}

/// `DashMap::get`: the value stored under the key, handed out as a copy,
/// or `None` when the key is absent.
#[verifier::external_body]
fn mapping_get(m: &DashMap<String, ServiceConfig>, key: &str) -> (r: Option<ServiceConfig>)
    ensures
        match r {
            Some(c) => mapping_entries(*m).dom().contains(key@) && c@ == mapping_entries(*m)[key@],
            None => !mapping_entries(*m).dom().contains(key@),
        },
{
    m.get(key).map(|entry| entry.value().clone())
}

/// `DashMap::insert`: afterwards the key holds the value, replacing what it
/// held before; every other key is untouched.
#[verifier::external_body]
fn mapping_insert(m: &mut DashMap<String, ServiceConfig>, key: String, value: ServiceConfig)
    ensures
        mapping_entries(*final(m)) == mapping_entries(*old(m)).insert(key@, value@),
{
    m.insert(key, value);
}

/// `DashMap::remove`: afterwards the key is absent; every other key is
/// untouched.
#[verifier::external_body]
fn mapping_remove(m: &mut DashMap<String, ServiceConfig>, key: &str)
    ensures
        mapping_entries(*final(m)) == mapping_entries(*old(m)).remove(key@),
{
    m.remove(key);
}

/// `DashMap::iter`: every stored key exactly once, in no particular order.
#[verifier::external_body]
fn mapping_keys(m: &DashMap<String, ServiceConfig>) -> (r: Vec<String>)
    ensures
        r.deep_view().no_duplicates(),
        r.deep_view().to_set() == mapping_entries(*m).dom(),
{
    m.iter().map(|entry| entry.key().clone()).collect()
}

/// `DashMap::len`: the number of stored keys.
#[verifier::external_body]
fn mapping_len(m: &DashMap<String, ServiceConfig>) -> (r: usize)
    ensures
        r == mapping_entries(*m).dom().len(),
{
    m.len()
}

/// The table of running listeners.
pub struct ManagerTable {
    entries: DashMap<String, ServiceConfig>,
}

impl View for ManagerTable {
    type V = Map<Seq<char>, ServiceConfigView>;

    closed spec fn view(&self) -> Map<Seq<char>, ServiceConfigView> {
        mapping_entries(self.entries)
    }
}

impl ManagerTable {
    /// A table without listeners.
    pub fn new() -> (r: Self)
        ensures
            r@ == Map::<Seq<char>, ServiceConfigView>::empty(),
    {
        let r = ManagerTable { entries: mapping_new() };
        r
    }

    /// Whether a listener runs under `key`.
    pub fn contains_key(&self, key: &str) -> (r: bool)
        ensures
            r == self@.dom().contains(key@),
    {
        mapping_contains_key(&self.entries, key)
    }

    /// The configuration served under `key`, if a listener runs there.
    pub fn get(&self, key: &str) -> (r: Option<ServiceConfig>)
        ensures
            match r {
                Some(c) => self@.dom().contains(key@) && c@ == self@[key@],
                None => !self@.dom().contains(key@),
            },
    {
        mapping_get(&self.entries, key)
    }

    /// Stores `value` under `key`, replacing what was there.
    pub fn insert(&mut self, key: String, value: ServiceConfig)
        ensures
            final(self)@ == old(self)@.insert(key@, value@),
    {
        mapping_insert(&mut self.entries, key, value);
    }

    /// Drops the entry under `key`, if there is one.
    pub fn remove(&mut self, key: &str)
        ensures
            final(self)@ == old(self)@.remove(key@),
    {
        mapping_remove(&mut self.entries, key);
    }

    /// The keys of all running listeners, each once, in no particular order.
    pub fn keys(&self) -> (r: Vec<String>)
        ensures
            r.deep_view().no_duplicates(),
            r.deep_view().to_set() == self@.dom(),
    {
        mapping_keys(&self.entries)
    }

    /// The number of running listeners.
    pub fn len(&self) -> (r: usize)
        ensures
            r == self@.dom().len(),
    {
        mapping_len(&self.entries)
    }
}

} // verus!
