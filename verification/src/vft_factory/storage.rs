//! The hash tables of the factory.
//!
//! Each table is a `sails_rs::collections::HashMap` (the table of the
//! `hashbrown` crate). What a table holds is named by a specification function;
//! the methods whose names begin with `outside_` call the table and say what
//! the call does to that content. They are believed, not proved.

use vstd::prelude::*;
use crate::listing::{holds_nothing, is_lookup, lists_each_once, lists_map};
use crate::primitives::ActorId;
use crate::vft_factory::config::{
    DexToken, InitConfigView, TokenView, VftInitConfig, records_under, records_view,
};

verus! {

/// The address of each deployed ledger, by id.
///
/// The table itself is hidden from the verifier: what it holds is known
/// through the calls below alone.
#[verifier::external_body]
pub struct IdToAddress {
    inner: sails_rs::collections::HashMap<u64, sails_rs::ActorId>,
}

/// The entries of an address table: id to address.
pub uninterp spec fn address_entries(table: IdToAddress) -> Map<u64, ActorId>;

impl View for IdToAddress {
    type V = Map<u64, ActorId>;

    open spec fn view(&self) -> Map<u64, ActorId> {
        address_entries(*self)
    }
}

impl IdToAddress {
    /// Calls `HashMap::new`: a table without entries.
    #[verifier::external_body]
    fn outside_new() -> (r: IdToAddress)
        ensures
            holds_nothing(address_entries(r)),
    {
        IdToAddress { inner: sails_rs::collections::HashMap::new() }
    }

    /// Calls `HashMap::insert`: stores `address` under `id`, replacing what was
    /// there.
    #[verifier::external_body]
    pub(crate) fn outside_insert(&mut self, id: u64, address: ActorId)
        ensures
            address_entries(*final(self)) == address_entries(*old(self)).insert(id, address),
    {
        self.inner.insert(id, sails_rs::ActorId::new(address.bytes));
    }

    /// Calls `HashMap::remove`: drops the entry under `id` and returns what was
    /// there.
    #[verifier::external_body]
    pub(crate) fn outside_remove(&mut self, id: u64) -> (r: Option<ActorId>)
        ensures
            address_entries(*final(self)) == address_entries(*old(self)).remove(id),
            is_lookup(address_entries(*old(self)), id, r),
    {
        match self.inner.remove(&id) {
            Some(a) => Some(ActorId { bytes: a.into_bytes() }),
            None => None,
        }
    }

    /// Calls `HashMap::iter`: every entry once, in the table's own order, of
    /// which nothing is promised.
    #[verifier::external_body]
    pub(crate) fn outside_entries(&self) -> (r: Vec<(u64, ActorId)>)
        ensures
            lists_map(r@, address_entries(*self)),
    {
        self.inner.iter().map(|(id, a)| (*id, ActorId { bytes: a.into_bytes() })).collect()
    }

    /// A table without entries.
    pub fn new() -> (r: IdToAddress)
        ensures
            r@ == Map::<u64, ActorId>::empty(),
    {
        IdToAddress::outside_new()
    }
}

/// The records of each owner: the ledgers that it had deployed.
///
/// The table itself is hidden from the verifier: what it holds is known
/// through the calls below alone.
#[verifier::external_body]
pub struct Registry {
    inner: sails_rs::collections::HashMap<sails_rs::ActorId, Vec<(u64, VftInitConfig)>>,
}

/// The entries of a registry: owner to its records, in the order in which they
/// were made.
pub uninterp spec fn registry_entries(table: Registry) -> Map<ActorId, Seq<(u64, InitConfigView)>>;

impl View for Registry {
    type V = Map<ActorId, Seq<(u64, InitConfigView)>>;

    open spec fn view(&self) -> Map<ActorId, Seq<(u64, InitConfigView)>> {
        registry_entries(*self)
    }
}

/// What a lookup of `owner` gives: its records, or nothing where it has no
/// entry.
pub open spec fn is_records_lookup(
    entries: Map<ActorId, Seq<(u64, InitConfigView)>>,
    owner: ActorId,
    found: Option<Seq<(u64, VftInitConfig)>>,
) -> bool {
    match found {
        Some(records) => entries.contains_key(owner) && entries[owner] == records_view(records),
        None => !entries.contains_key(owner),
    }
}

/// The records behind an optional reference to a list.
pub open spec fn borrowed_records(found: Option<&Vec<(u64, VftInitConfig)>>) -> Option<
    Seq<(u64, VftInitConfig)>,
> {
    match found {
        Some(records) => Some(records@),
        None => None,
    }
}

impl Registry {
    /// Calls `HashMap::new`: a table without entries.
    #[verifier::external_body]
    fn outside_new() -> (r: Registry)
        ensures
            holds_nothing(registry_entries(r)),
    {
        Registry { inner: sails_rs::collections::HashMap::new() }
    }

    /// Calls `HashMap::get`: the records stored under `owner`, if there are
    /// any.
    #[verifier::external_body]
    pub(crate) fn outside_get(&self, owner: ActorId) -> (r: Option<&Vec<(u64, VftInitConfig)>>)
        ensures
            is_records_lookup(registry_entries(*self), owner, borrowed_records(r)),
    {
        self.inner.get(&sails_rs::ActorId::new(owner.bytes))
    }

    /// Calls `HashMap::entry` and `Entry::or_default`: the records stored under
    /// `owner`, to change in place; an owner without an entry gets one without
    /// records first.
    #[verifier::external_body]
    pub(crate) fn outside_entry_or_default(&mut self, owner: ActorId) -> (r: &mut Vec<
        (u64, VftInitConfig),
    >)
        ensures
            records_view(r@) == records_under(registry_entries(*old(self)), owner),
            registry_entries(*final(self)) == registry_entries(*old(self)).insert(
                owner,
                records_view(final(r)@),
            ),
    {
        self.inner.entry(sails_rs::ActorId::new(owner.bytes)).or_default()
    }

    /// Calls `HashMap::keys`: every owner once, in the table's own order, of
    /// which nothing is promised.
    #[verifier::external_body]
    pub(crate) fn outside_owners(&self) -> (r: Vec<ActorId>)
        ensures
            lists_each_once(r@, registry_entries(*self).dom()),
    {
        self.inner.keys().map(|k| ActorId { bytes: k.into_bytes() }).collect()
    }

    /// A registry without entries.
    pub fn new() -> (r: Registry)
        ensures
            r@ == Map::<ActorId, Seq<(u64, InitConfigView)>>::empty(),
    {
        Registry::outside_new()
    }
}

/// The whitelist: each registered token, by its address.
///
/// The table itself is hidden from the verifier: what it holds is known
/// through the calls below alone.
#[verifier::external_body]
pub struct TokenMap {
    inner: sails_rs::collections::HashMap<sails_rs::ActorId, DexToken>,
}

/// The entries of a whitelist: address to token.
pub uninterp spec fn token_entries(table: TokenMap) -> Map<ActorId, TokenView>;

impl View for TokenMap {
    type V = Map<ActorId, TokenView>;

    open spec fn view(&self) -> Map<ActorId, TokenView> {
        token_entries(*self)
    }
}

impl TokenMap {
    /// Calls `HashMap::new`: a table without entries.
    #[verifier::external_body]
    fn outside_new() -> (r: TokenMap)
        ensures
            holds_nothing(token_entries(r)),
    {
        TokenMap { inner: sails_rs::collections::HashMap::new() }
    }

    /// Calls `HashMap::contains_key`: whether `address` has an entry.
    #[verifier::external_body]
    pub(crate) fn outside_contains_key(&self, address: ActorId) -> (r: bool)
        ensures
            r == token_entries(*self).contains_key(address),
    {
        self.inner.contains_key(&sails_rs::ActorId::new(address.bytes))
    }

    /// Calls `HashMap::insert`: stores `token` under `address`, replacing what
    /// was there.
    #[verifier::external_body]
    pub(crate) fn outside_insert(&mut self, address: ActorId, token: DexToken)
        ensures
            token_entries(*final(self)) == token_entries(*old(self)).insert(address, token@),
    {
        self.inner.insert(sails_rs::ActorId::new(address.bytes), token);
    }

    /// A whitelist without entries.
    pub fn new() -> (r: TokenMap)
        ensures
            r@ == Map::<ActorId, TokenView>::empty(),
    {
        TokenMap::outside_new()
    }
}

/// The whitelist by name and symbol: the address last registered under each
/// pair.
///
/// The table itself is hidden from the verifier: what it holds is known
/// through the calls below alone.
#[verifier::external_body]
pub struct NameSymbolIndex {
    inner: sails_rs::collections::HashMap<(String, String), sails_rs::ActorId>,
}

/// The entries of an index: (name, symbol) to address.
pub uninterp spec fn index_entries(table: NameSymbolIndex) -> Map<(Seq<char>, Seq<char>), ActorId>;

impl View for NameSymbolIndex {
    type V = Map<(Seq<char>, Seq<char>), ActorId>;

    open spec fn view(&self) -> Map<(Seq<char>, Seq<char>), ActorId> {
        index_entries(*self)
    }
}

impl NameSymbolIndex {
    /// Calls `HashMap::new`: a table without entries.
    #[verifier::external_body]
    fn outside_new() -> (r: NameSymbolIndex)
        ensures
            holds_nothing(index_entries(r)),
    {
        NameSymbolIndex { inner: sails_rs::collections::HashMap::new() }
    }

    /// Calls `HashMap::insert`: stores `address` under `(name, symbol)`,
    /// replacing what was there.
    #[verifier::external_body]
    pub(crate) fn outside_insert(&mut self, name: String, symbol: String, address: ActorId)
        ensures
            index_entries(*final(self)) == index_entries(*old(self)).insert((name@, symbol@), address),
    {
        self.inner.insert((name, symbol), sails_rs::ActorId::new(address.bytes));
    }

    /// An index without entries.
    pub fn new() -> (r: NameSymbolIndex)
        ensures
            r@ == Map::<(Seq<char>, Seq<char>), ActorId>::empty(),
    {
        NameSymbolIndex::outside_new()
    }
}

} // verus!
