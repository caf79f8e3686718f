//! The hash tables of the ledger.
//!
//! Each table is a `sails_rs::collections::HashMap` or `HashSet` (the tables of
//! the `hashbrown` crate) keyed by `sails_rs::ActorId`. What a table holds is
//! named by a specification function; the methods below call the table and say
//! what the call does to that content. They are believed, not proved.

use vstd::prelude::*;
use crate::listing::{holds_nothing, lists_each_once};
use crate::primitives::{ActorId, U256};

verus! {

/// `listed` holds every entry of `entries` exactly once, in some order, each
/// with the amount stored under its key.
pub open spec fn lists_entries<K>(listed: Seq<(K, U256)>, entries: Map<K, nat>) -> bool {
    &&& lists_each_once(listed.map_values(|e: (K, U256)| e.0), entries.dom())
    &&& forall|i: int| 0 <= i < listed.len() ==> entries[(#[trigger] listed[i]).0] == listed[i].1@
}

/// What a lookup of `key` in `entries` gives as an amount: `found` is the
/// stored amount, or nothing where there is no entry.
pub open spec fn is_amount_lookup<K>(entries: Map<K, nat>, key: K, found: Option<U256>) -> bool {
    match found {
        Some(amount) => entries.contains_key(key) && entries[key] == amount@,
        None => !entries.contains_key(key),
    }
}

/// The balance of each account that holds an entry.
///
/// The table itself is hidden from the verifier: what it holds is known
/// through the calls below alone.
#[verifier::external_body]
pub struct BalancesMap {
    inner: sails_rs::collections::HashMap<sails_rs::ActorId, sails_rs::U256>,
}

/// The entries of a balance table: account to amount.
pub uninterp spec fn balance_entries(table: BalancesMap) -> Map<ActorId, nat>;

impl View for BalancesMap {
    type V = Map<ActorId, nat>;

    open spec fn view(&self) -> Map<ActorId, nat> {
        balance_entries(*self)
    }
}

impl BalancesMap {
    /// Calls `HashMap::new`: a table without entries.
    #[verifier::external_body]
    fn outside_new() -> (r: BalancesMap)
        ensures
            holds_nothing(balance_entries(r)),
    {
        BalancesMap { inner: sails_rs::collections::HashMap::new() }
    }

    /// Calls `HashMap::get`: the amount stored under `key`, if there is one.
    #[verifier::external_body]
    pub(crate) fn outside_get(&self, key: ActorId) -> (r: Option<U256>)
        ensures
            is_amount_lookup(balance_entries(*self), key, r),
    {
        match self.inner.get(&sails_rs::ActorId::new(key.bytes)) {
            Some(v) => Some(U256 { limbs: v.0 }),
            None => None,
        }
    }

    /// Calls `HashMap::insert`: stores `amount` under `key`, replacing what was
    /// there, and returns what was there.
    #[verifier::external_body]
    pub(crate) fn outside_insert(&mut self, key: ActorId, amount: U256) -> (r: Option<U256>)
        ensures
            balance_entries(*final(self)) == balance_entries(*old(self)).insert(key, amount@),
            is_amount_lookup(balance_entries(*old(self)), key, r),
    {
        match self.inner.insert(sails_rs::ActorId::new(key.bytes), sails_rs::U256(amount.limbs)) {
            Some(v) => Some(U256 { limbs: v.0 }),
            None => None,
        }
    }

    /// Calls `HashMap::remove`: drops the entry under `key` and returns what was
    /// there.
    #[verifier::external_body]
    pub(crate) fn outside_remove(&mut self, key: ActorId) -> (r: Option<U256>)
        ensures
            balance_entries(*final(self)) == balance_entries(*old(self)).remove(key),
            is_amount_lookup(balance_entries(*old(self)), key, r),
    {
        match self.inner.remove(&sails_rs::ActorId::new(key.bytes)) {
            Some(v) => Some(U256 { limbs: v.0 }),
            None => None,
        }
    }

    /// Calls `HashMap::iter`: every entry once, in the table's own order, of
    /// which nothing is promised.
    #[verifier::external_body]
    pub(crate) fn outside_entries(&self) -> (r: Vec<(ActorId, U256)>)
        ensures
            lists_entries(r@, balance_entries(*self)),
    {
        self.inner.iter().map(|(k, v)| (ActorId { bytes: k.into_bytes() }, U256 { limbs: v.0 })).collect()
    }

    /// A balance table without entries.
    pub fn new() -> (r: BalancesMap)
        ensures
            r@ == Map::<ActorId, nat>::empty(),
    {
        BalancesMap::outside_new()
    }
}

/// What each owner lets each spender take, keyed by (owner, spender).
///
/// The table itself is hidden from the verifier: what it holds is known
/// through the calls below alone.
#[verifier::external_body]
pub struct AllowancesMap {
    inner: sails_rs::collections::HashMap<(sails_rs::ActorId, sails_rs::ActorId), sails_rs::U256>,
}

/// The entries of an allowance table: (owner, spender) to amount.
pub uninterp spec fn allowance_entries(table: AllowancesMap) -> Map<(ActorId, ActorId), nat>;

impl View for AllowancesMap {
    type V = Map<(ActorId, ActorId), nat>;

    open spec fn view(&self) -> Map<(ActorId, ActorId), nat> {
        allowance_entries(*self)
    }
}

impl AllowancesMap {
    /// Calls `HashMap::new`: a table without entries.
    #[verifier::external_body]
    fn outside_new() -> (r: AllowancesMap)
        ensures
            holds_nothing(allowance_entries(r)),
    {
        AllowancesMap { inner: sails_rs::collections::HashMap::new() }
    }

    /// Calls `HashMap::get`: the amount stored under `key`, if there is one.
    #[verifier::external_body]
    pub(crate) fn outside_get(&self, key: (ActorId, ActorId)) -> (r: Option<U256>)
        ensures
            is_amount_lookup(allowance_entries(*self), key, r),
    {
        let k = (sails_rs::ActorId::new(key.0.bytes), sails_rs::ActorId::new(key.1.bytes));
        match self.inner.get(&k) {
            Some(v) => Some(U256 { limbs: v.0 }),
            None => None,
        }
    }

    /// Calls `HashMap::insert`: stores `amount` under `key`, replacing what was
    /// there, and returns what was there.
    #[verifier::external_body]
    pub(crate) fn outside_insert(&mut self, key: (ActorId, ActorId), amount: U256) -> (r: Option<U256>)
        ensures
            allowance_entries(*final(self)) == allowance_entries(*old(self)).insert(key, amount@),
            is_amount_lookup(allowance_entries(*old(self)), key, r),
    {
        let k = (sails_rs::ActorId::new(key.0.bytes), sails_rs::ActorId::new(key.1.bytes));
        match self.inner.insert(k, sails_rs::U256(amount.limbs)) {
            Some(v) => Some(U256 { limbs: v.0 }),
            None => None,
        }
    }

    /// Calls `HashMap::remove`: drops the entry under `key` and returns what was
    /// there.
    #[verifier::external_body]
    pub(crate) fn outside_remove(&mut self, key: (ActorId, ActorId)) -> (r: Option<U256>)
        ensures
            allowance_entries(*final(self)) == allowance_entries(*old(self)).remove(key),
            is_amount_lookup(allowance_entries(*old(self)), key, r),
    {
        let k = (sails_rs::ActorId::new(key.0.bytes), sails_rs::ActorId::new(key.1.bytes));
        match self.inner.remove(&k) {
            Some(v) => Some(U256 { limbs: v.0 }),
            None => None,
        }
    }

    /// Calls `HashMap::iter`: every entry once, in the table's own order, of
    /// which nothing is promised.
    #[verifier::external_body]
    pub(crate) fn outside_entries(&self) -> (r: Vec<((ActorId, ActorId), U256)>)
        ensures
            lists_entries(r@, allowance_entries(*self)),
    {
        self.inner.iter().map(|(k, v)| (
            (ActorId { bytes: k.0.into_bytes() }, ActorId { bytes: k.1.into_bytes() }),
            U256 { limbs: v.0 },
        )).collect()
    }

    /// An allowance table without entries.
    pub fn new() -> (r: AllowancesMap)
        ensures
            r@ == Map::<(ActorId, ActorId), nat>::empty(),
    {
        AllowancesMap::outside_new()
    }
}

/// A set of accounts: the holders of one role.
///
/// The table itself is hidden from the verifier: what it holds is known
/// through the calls below alone.
#[verifier::external_body]
pub struct ActorSet {
    inner: sails_rs::collections::HashSet<sails_rs::ActorId>,
}

/// The members of an account set.
pub uninterp spec fn actor_members(set: ActorSet) -> Set<ActorId>;

impl View for ActorSet {
    type V = Set<ActorId>;

    open spec fn view(&self) -> Set<ActorId> {
        actor_members(*self)
    }
}

impl ActorSet {
    /// Calls `HashSet::new`: a set without members.
    #[verifier::external_body]
    fn outside_new() -> (r: ActorSet)
        ensures
            actor_members(r) == Set::<ActorId>::empty(),
    {
        ActorSet { inner: sails_rs::collections::HashSet::new() }
    }

    /// Calls `HashSet::contains`: whether `who` is a member.
    #[verifier::external_body]
    pub(crate) fn outside_contains(&self, who: ActorId) -> (r: bool)
        ensures
            r == actor_members(*self).contains(who),
    {
        self.inner.contains(&sails_rs::ActorId::new(who.bytes))
    }

    /// Calls `HashSet::insert`: makes `who` a member, and returns whether it
    /// was none before.
    #[verifier::external_body]
    pub(crate) fn outside_insert(&mut self, who: ActorId) -> (r: bool)
        ensures
            actor_members(*final(self)) == actor_members(*old(self)).insert(who),
            r == !actor_members(*old(self)).contains(who),
    {
        self.inner.insert(sails_rs::ActorId::new(who.bytes))
    }

    /// Calls `HashSet::remove`: makes `who` no member, and returns whether it
    /// was one before.
    #[verifier::external_body]
    pub(crate) fn outside_remove(&mut self, who: ActorId) -> (r: bool)
        ensures
            actor_members(*final(self)) == actor_members(*old(self)).remove(who),
            r == actor_members(*old(self)).contains(who),
    {
        self.inner.remove(&sails_rs::ActorId::new(who.bytes))
    }

    /// Calls `HashSet::iter`: every member once, in the set's own order, of
    /// which nothing is promised.
    #[verifier::external_body]
    pub(crate) fn outside_members(&self) -> (r: Vec<ActorId>)
        ensures
            lists_each_once(r@, actor_members(*self)),
    {
        self.inner.iter().map(|k| ActorId { bytes: k.into_bytes() }).collect()
    }

    /// A set without members.
    pub fn new() -> (r: ActorSet)
        ensures
            r@ == Set::<ActorId>::empty(),
    {
        ActorSet::outside_new()
    }
}

} // verus!
