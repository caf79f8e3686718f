//! The records that configure the factory and the ledgers it deploys.
//!
//! Each record has a view that holds its strings and lists as sequences; the
//! contracts of the factory speak of the views.

use vstd::prelude::*;
use crate::primitives::{ActorId, CodeId};

verus! {

/// A copy of a list of accounts.
pub fn copy_accounts(accounts: &Vec<ActorId>) -> (r: Vec<ActorId>)
    ensures
        r@ == accounts@,
{
    let mut copy: Vec<ActorId> = Vec::new();
    let mut i: usize = 0;
    while i < accounts.len()
        invariant
            i <= accounts.len(),
            copy@ == accounts@.take(i as int),
        decreases accounts.len() - i,
    {
        copy.push(accounts[i]);
        i += 1;
        assert(accounts@.take(i as int) =~= accounts@.take(i - 1).push(accounts@[i - 1]));
    }
    assert(accounts@.take(accounts.len() as int) =~= accounts@);
    copy
}

/// A token that pools may be created with.
#[derive(Debug, PartialEq, Eq)]
pub struct DexToken {
    pub name: String,
    pub symbol: String,
    pub address: ActorId,
}

/// What a [`DexToken`] stands for.
pub struct TokenView {
    pub name: Seq<char>,
    pub symbol: Seq<char>,
    pub address: ActorId,
}

impl View for DexToken {
    type V = TokenView;

    open spec fn view(&self) -> TokenView {
        TokenView { name: self.name@, symbol: self.symbol@, address: self.address }
    }
}

impl Clone for DexToken {
    fn clone(&self) -> (r: DexToken)
        ensures
            r@ == self@,
    {
        DexToken { name: self.name.clone(), symbol: self.symbol.clone(), address: self.address }
    }
}

/// How a new ledger is to be set up: its metadata, its admins, and the first
/// mint.
#[derive(Debug, PartialEq, Eq)]
pub struct VftInitConfig {
    pub name: String,
    pub symbol: String,
    pub decimals: u8,
    pub admins: Vec<ActorId>,
    pub mint_amount: u128,
    pub mint_to: ActorId,
}

/// What a [`VftInitConfig`] stands for.
pub struct InitConfigView {
    pub name: Seq<char>,
    pub symbol: Seq<char>,
    pub decimals: u8,
    pub admins: Seq<ActorId>,
    pub mint_amount: u128,
    pub mint_to: ActorId,
}

impl View for VftInitConfig {
    type V = InitConfigView;

    open spec fn view(&self) -> InitConfigView {
        InitConfigView {
            name: self.name@,
            symbol: self.symbol@,
            decimals: self.decimals,
            admins: self.admins@,
            mint_amount: self.mint_amount,
            mint_to: self.mint_to,
        }
    }
}

impl Clone for VftInitConfig {
    fn clone(&self) -> (r: VftInitConfig)
        ensures
            r@ == self@,
    {
        VftInitConfig {
            name: self.name.clone(),
            symbol: self.symbol.clone(),
            decimals: self.decimals,
            admins: copy_accounts(&self.admins),
            mint_amount: self.mint_amount,
            mint_to: self.mint_to,
        }
    }
}

/// The records of one owner: each ledger it had deployed, by id, with the
/// configuration it asked for.
pub open spec fn records_view(records: Seq<(u64, VftInitConfig)>) -> Seq<(u64, InitConfigView)> {
    records.map_values(|e: (u64, VftInitConfig)| (e.0, e.1@))
}

/// The records under `owner`; none where it has no entry.
pub open spec fn records_under(
    entries: Map<ActorId, Seq<(u64, InitConfigView)>>,
    owner: ActorId,
) -> Seq<(u64, InitConfigView)> {
    if entries.contains_key(owner) {
        entries[owner]
    } else {
        Seq::empty()
    }
}

/// A copy of an owner's records.
pub fn copy_records(records: &Vec<(u64, VftInitConfig)>) -> (r: Vec<(u64, VftInitConfig)>)
    ensures
        records_view(r@) == records_view(records@),
{
    let mut copy: Vec<(u64, VftInitConfig)> = Vec::new();
    let mut i: usize = 0;
    while i < records.len()
        invariant
            i <= records.len(),
            records_view(copy@) == records_view(records@.take(i as int)),
        decreases records.len() - i,
    {
        let ghost before = copy@;
        copy.push((records[i].0, records[i].1.clone()));
        i += 1;
        assert(records_view(copy@) =~= records_view(before).push(
            (records@[i - 1].0, records@[i - 1].1@),
        ));
        assert(records_view(records@.take(i as int)) =~= records_view(
            records@.take(i - 1),
        ).push((records@[i - 1].0, records@[i - 1].1@)));
    }
    assert(records@.take(records.len() as int) =~= records@);
    copy
}

/// What the factory is created with.
#[derive(Debug)]
pub struct InitConfigFactory {
    pub code_id: CodeId,
    pub factory_admin_account: Vec<ActorId>,
    pub gas_for_program: u64,
    pub registered_tokens: Vec<DexToken>,
    pub pool_factory_address: ActorId,
    pub default_registered_token: Option<ActorId>,
}

/// The tokens of a list, as what they stand for.
pub open spec fn tokens_view(tokens: Seq<DexToken>) -> Seq<TokenView> {
    tokens.map_values(|t: DexToken| t@)
}

} // verus!
