//! The ledger state and the operations that a caller can invoke on it.
//!
//! Who calls is an argument: the host reads it from the message and hands it
//! in. What the caller is to be told comes back as a value: whether the state
//! changed, and the event to emit where it did.

use vstd::prelude::*;
use crate::primitives::{ActorId, U256, lemma_u256_bounded};
use crate::vft::ledger::{
    Error, LedgerView, Role, allowance, amount_at, approve, approve_changes, balance_of,
    lemma_sum_put, lemma_transfer_keeps_sum, transfer, transfer_result,
};
use crate::listing::lists_each_once;
use crate::vft::storage::{ActorSet, AllowancesMap, BalancesMap, lists_entries};

verus! {

/// The name, symbol and number of decimals of the token; fixed at construction.
#[derive(Debug, Clone, PartialEq, Eq)]
pub struct Metadata {
    pub name: String,
    pub symbol: String,
    pub decimals: u8,
}

/// The state of one ledger.
pub struct State {
    balances: BalancesMap,
    allowances: AllowancesMap,
    meta: Metadata,
    total_supply: U256,
    minters: ActorSet,
    burners: ActorSet,
    admins: ActorSet,
}

impl View for State {
    type V = LedgerView;

    closed spec fn view(&self) -> LedgerView {
        LedgerView {
            balances: self.balances@,
            allowances: self.allowances@,
            total_supply: self.total_supply@,
            minters: self.minters@,
            burners: self.burners@,
            admins: self.admins@,
            name: self.meta.name@,
            symbol: self.meta.symbol@,
            decimals: self.meta.decimals,
        }
    }
}

/// The set that holds the accounts of `accounts`.
fn set_of(accounts: &Vec<ActorId>) -> (r: ActorSet)
    ensures
        r@ == accounts@.to_set(),
{
    let mut set = ActorSet::new();
    let mut i: usize = 0;
    while i < accounts.len()
        invariant
            i <= accounts.len(),
            forall|a: ActorId|
                set@.contains(a) <==> exists|j: int| 0 <= j < i && accounts@[j] == a,
        decreases accounts.len() - i,
    {
        let ghost before = set@;
        set.outside_insert(accounts[i]);
        i += 1;
        assert forall|a: ActorId|
            set@.contains(a) <==> exists|j: int| 0 <= j < i && accounts@[j] == a by {
            if before.contains(a) {
                let j = choose|j: int| 0 <= j < i - 1 && accounts@[j] == a;
                assert(0 <= j < i && accounts@[j] == a);
            }
            if a == accounts@[i - 1] {
                assert(0 <= i - 1 < i && accounts@[i - 1] == a);
            }
        }
    }
    assert(set@ =~= accounts@.to_set());
    set
}

impl State {
    /// A ledger without balances or allowances, in which each of `admins`
    /// holds all three roles.
    pub fn new(name: String, symbol: String, decimals: u8, admins: Vec<ActorId>) -> (r: State)
        ensures
            r@ == (LedgerView {
                balances: Map::empty(),
                allowances: Map::empty(),
                total_supply: 0,
                minters: admins@.to_set(),
                burners: admins@.to_set(),
                admins: admins@.to_set(),
                name: name@,
                symbol: symbol@,
                decimals: decimals,
            }),
            r@.sound(),
    {
        let meta = Metadata { name, symbol, decimals };
        State {
            balances: BalancesMap::new(),
            allowances: AllowancesMap::new(),
            meta,
            total_supply: U256::zero(),
            minters: set_of(&admins),
            burners: set_of(&admins),
            admins: set_of(&admins),
        }
    }
}

/// Creates `value` new units on the account `to`, and returns whether the
/// state changed. Both overflow checks precede any change.
pub fn mint(state: &mut State, to: ActorId, value: U256) -> (r: Result<bool, Error>)
    ensures
        r == old(state)@.mint_result(to, value@),
        final(state)@ == old(state)@.after_mint(to, value@),
        old(state)@.sound() ==> final(state)@.sound(),
{
    if value.outside_is_zero() {
        return Ok(false);
    }
    let new_total_supply = match state.total_supply.outside_checked_add(value) {
        Some(sum) => sum,
        None => { return Err(Error::NumericOverflow); },
    };
    let new_to = match balance_of(&state.balances, to).outside_checked_add(value) {
        Some(sum) => sum,
        None => { return Err(Error::NumericOverflow); },
    };
    proof {
        lemma_u256_bounded(new_total_supply);
        lemma_u256_bounded(new_to);
        if state@.sound() {
            lemma_sum_put(state.balances@, to, new_to@);
        }
    }
    state.balances.outside_insert(to, new_to);
    state.total_supply = new_total_supply;
    Ok(true)
}

/// Destroys `value` units on the account `from`, and returns whether the
/// state changed. Both checks precede any change.
pub fn burn(state: &mut State, from: ActorId, value: U256) -> (r: Result<bool, Error>)
    ensures
        r == old(state)@.burn_result(from, value@),
        final(state)@ == old(state)@.after_burn(from, value@),
        old(state)@.sound() ==> final(state)@.sound(),
{
    if value.outside_is_zero() {
        return Ok(false);
    }
    let new_total_supply = match state.total_supply.outside_checked_sub(value) {
        Some(left) => left,
        None => { return Err(Error::Underflow); },
    };
    let new_from = match balance_of(&state.balances, from).outside_checked_sub(value) {
        Some(left) => left,
        None => { return Err(Error::InsufficientBalance); },
    };
    proof {
        if state@.sound() {
            lemma_sum_put(state.balances@, from, new_from@);
        }
    }
    if !new_from.outside_is_zero() {
        state.balances.outside_insert(from, new_from);
    } else {
        state.balances.outside_remove(from);
    }
    state.total_supply = new_total_supply;
    Ok(true)
}

/// Moves `value` from `from` to `to` on behalf of `spender`, and returns
/// whether the state changed. The owner itself needs no allowance; any other
/// spender spends its allowance.
pub fn transfer_from(
    state: &mut State,
    spender: ActorId,
    from: ActorId,
    to: ActorId,
    value: U256,
) -> (r: Result<bool, Error>)
    ensures
        r == old(state)@.transfer_from_result(spender, from, to, value@),
        final(state)@ == old(state)@.after_transfer_from(spender, from, to, value@),
        old(state)@.sound() ==> final(state)@.sound(),
{
    proof {
        if state@.sound() {
            lemma_transfer_keeps_sum(state.balances@, from, to, value@);
        }
    }
    if spender == from {
        return transfer(&mut state.balances, from, to, value);
    }
    if from == to || value.outside_is_zero() {
        return Ok(false);
    }
    let new_allowance = match allowance(&state.allowances, from, spender).outside_checked_sub(
        value,
    ) {
        Some(left) => left,
        None => { return Err(Error::InsufficientAllowance); },
    };
    match transfer(&mut state.balances, from, to, value) {
        Ok(_) => {},
        Err(e) => { return Err(e); },
    }
    let key = (from, spender);
    if !new_allowance.outside_is_zero() {
        state.allowances.outside_insert(key, new_allowance);
    } else {
        state.allowances.outside_remove(key);
    }
    Ok(true)
}

/// What the ledger tells the outside world of a change.
#[derive(Debug, Clone, Copy, PartialEq, Eq)]
pub enum ContractEvent {
    Approval { owner: ActorId, spender: ActorId, value: U256 },
    Transfer { from: ActorId, to: ActorId, value: U256 },
    Minted { to: ActorId, value: U256 },
    Burned { from: ActorId, value: U256 },
}

/// The event that a call emits: `event` where the call changed the state,
/// none where it did not.
pub open spec fn emitted(changed: bool, event: ContractEvent) -> Option<ContractEvent> {
    if changed {
        Some(event)
    } else {
        None
    }
}

/// What a call reports that may be refused: the error, or whether the state
/// changed together with the event that this emits.
pub open spec fn reported(result: Result<bool, Error>, event: ContractEvent) -> Result<
    (bool, Option<ContractEvent>),
    Error,
> {
    match result {
        Ok(changed) => Ok((changed, emitted(changed, event))),
        Err(e) => Err(e),
    }
}

/// The state of a ledger as ordered sequences, for inspection from outside.
#[derive(Debug, Clone, PartialEq, Eq)]
pub struct IoState {
    pub balances: Vec<(ActorId, U256)>,
    pub allowances: Vec<((ActorId, ActorId), U256)>,
    pub meta: Metadata,
    pub total_supply: U256,
    pub minters: Vec<ActorId>,
    pub burners: Vec<ActorId>,
    pub admins: Vec<ActorId>,
}

impl IoState {
    /// The snapshot shows `ledger`: every entry and every role holder exactly
    /// once, in an order of which nothing is said.
    pub open spec fn mirrors(&self, ledger: LedgerView) -> bool {
        &&& lists_entries(self.balances@, ledger.balances)
        &&& lists_entries(self.allowances@, ledger.allowances)
        &&& self.meta.name@ == ledger.name
        &&& self.meta.symbol@ == ledger.symbol
        &&& self.meta.decimals == ledger.decimals
        &&& self.total_supply@ == ledger.total_supply
        &&& lists_each_once(self.minters@, ledger.minters)
        &&& lists_each_once(self.burners@, ledger.burners)
        &&& lists_each_once(self.admins@, ledger.admins)
    }

    /// The snapshot of `state`.
    pub fn from(state: State) -> (r: IoState)
        ensures
            r.mirrors(state@),
    {
        snapshot(&state)
    }
}

/// Lists what `state` holds.
fn snapshot(state: &State) -> (r: IoState)
    ensures
        r.mirrors(state@),
{
    IoState {
        balances: state.balances.outside_entries(),
        allowances: state.allowances.outside_entries(),
        meta: Metadata {
            name: state.meta.name.clone(),
            symbol: state.meta.symbol.clone(),
            decimals: state.meta.decimals,
        },
        total_supply: state.total_supply,
        minters: state.minters.outside_members(),
        burners: state.burners.outside_members(),
        admins: state.admins.outside_members(),
    }
}

/// The operations of a ledger, as its callers see them.
pub struct Service {
    state: State,
}

impl View for Service {
    type V = LedgerView;

    closed spec fn view(&self) -> LedgerView {
        self.state@
    }
}

impl Service {
    /// The service over `state`.
    pub fn new(state: State) -> (r: Service)
        ensures
            r@ == state@,
    {
        Service { state }
    }

    /// Whether `who` holds `role`. Every role check of the ledger is this one.
    pub fn has_role(&self, who: ActorId, role: Role) -> (r: bool)
        ensures
            r == self@.holders(role).contains(who),
    {
        match role {
            Role::Admin => self.state.admins.outside_contains(who),
            Role::Minter => self.state.minters.outside_contains(who),
            Role::Burner => self.state.burners.outside_contains(who),
        }
    }

    /// `owner` lets `spender` take up to `value`. Returns whether the
    /// allowance changed, and the `Approval` event where it did.
    pub fn approve(&mut self, owner: ActorId, spender: ActorId, value: U256) -> (r: (
        bool,
        Option<ContractEvent>,
    ))
        ensures
            r.0 == approve_changes(old(self)@.allowances, owner, spender, value@),
            r.1 == emitted(r.0, ContractEvent::Approval { owner, spender, value }),
            final(self)@ == old(self)@.after_approve(owner, spender, value@),
            old(self)@.sound() ==> final(self)@.sound(),
    {
        let mutated = approve(&mut self.state.allowances, owner, spender, value);
        if mutated {
            (true, Some(ContractEvent::Approval { owner, spender, value }))
        } else {
            (false, None)
        }
    }

    /// `from` sends `value` to `to`. Reports the refusal, or whether the
    /// balances changed and the `Transfer` event where they did.
    pub fn transfer(&mut self, from: ActorId, to: ActorId, value: U256) -> (r: Result<
        (bool, Option<ContractEvent>),
        Error,
    >)
        ensures
            r == reported(
                transfer_result(old(self)@.balances, from, to, value@),
                ContractEvent::Transfer { from, to, value },
            ),
            final(self)@ == old(self)@.after_transfer(from, to, value@),
            old(self)@.sound() ==> final(self)@.sound(),
    {
        proof {
            if self@.sound() {
                lemma_transfer_keeps_sum(self.state.balances@, from, to, value@);
            }
        }
        match transfer(&mut self.state.balances, from, to, value) {
            Ok(true) => Ok((true, Some(ContractEvent::Transfer { from, to, value }))),
            Ok(false) => Ok((false, None)),
            Err(e) => Err(e),
        }
    }

    /// `spender` sends `value` from `from` to `to`. Reports the refusal, or
    /// whether the state changed and the `Transfer` event where it did.
    pub fn transfer_from(&mut self, spender: ActorId, from: ActorId, to: ActorId, value: U256) -> (r:
        Result<(bool, Option<ContractEvent>), Error>)
        ensures
            r == reported(
                old(self)@.transfer_from_result(spender, from, to, value@),
                ContractEvent::Transfer { from, to, value },
            ),
            final(self)@ == old(self)@.after_transfer_from(spender, from, to, value@),
            old(self)@.sound() ==> final(self)@.sound(),
    {
        match transfer_from(&mut self.state, spender, from, to, value) {
            Ok(true) => Ok((true, Some(ContractEvent::Transfer { from, to, value }))),
            Ok(false) => Ok((false, None)),
            Err(e) => Err(e),
        }
    }

    /// `caller`, a minter, creates `value` units on `to`. Reports the
    /// overflow, or whether the state changed and the `Minted` event where it
    /// did.
    pub fn mint(&mut self, caller: ActorId, to: ActorId, value: U256) -> (r: Result<
        (bool, Option<ContractEvent>),
        Error,
    >)
        requires
            old(self)@.minters.contains(caller),
        ensures
            r == reported(old(self)@.mint_result(to, value@), ContractEvent::Minted { to, value }),
            final(self)@ == old(self)@.after_mint(to, value@),
            old(self)@.sound() ==> final(self)@.sound(),
    {
        match mint(&mut self.state, to, value) {
            Ok(true) => Ok((true, Some(ContractEvent::Minted { to, value }))),
            Ok(false) => Ok((false, None)),
            Err(e) => Err(e),
        }
    }

    /// `caller`, a burner, destroys `value` units on `from`. Reports the
    /// refusal, or whether the state changed and the `Burned` event where it
    /// did.
    pub fn burn(&mut self, caller: ActorId, from: ActorId, value: U256) -> (r: Result<
        (bool, Option<ContractEvent>),
        Error,
    >)
        requires
            old(self)@.burners.contains(caller),
        ensures
            r == reported(
                old(self)@.burn_result(from, value@),
                ContractEvent::Burned { from, value },
            ),
            final(self)@ == old(self)@.after_burn(from, value@),
            old(self)@.sound() ==> final(self)@.sound(),
    {
        match burn(&mut self.state, from, value) {
            Ok(true) => Ok((true, Some(ContractEvent::Burned { from, value }))),
            Ok(false) => Ok((false, None)),
            Err(e) => Err(e),
        }
    }

    /// `caller`, an admin, makes `to` an admin. No event is emitted.
    pub fn grant_admin_role(&mut self, caller: ActorId, to: ActorId)
        requires
            old(self)@.admins.contains(caller),
        ensures
            final(self)@ == old(self)@.with_holders(Role::Admin, old(self)@.admins.insert(to)),
    {
        self.state.admins.outside_insert(to);
    }

    /// `caller`, an admin, makes `to` a minter. No event is emitted.
    pub fn grant_minter_role(&mut self, caller: ActorId, to: ActorId)
        requires
            old(self)@.admins.contains(caller),
        ensures
            final(self)@ == old(self)@.with_holders(Role::Minter, old(self)@.minters.insert(to)),
    {
        self.state.minters.outside_insert(to);
    }

    /// `caller`, an admin, makes `to` a burner. No event is emitted.
    pub fn grant_burner_role(&mut self, caller: ActorId, to: ActorId)
        requires
            old(self)@.admins.contains(caller),
        ensures
            final(self)@ == old(self)@.with_holders(Role::Burner, old(self)@.burners.insert(to)),
    {
        self.state.burners.outside_insert(to);
    }

    /// `caller`, an admin, takes the admin role from `from`. No event is
    /// emitted.
    pub fn revoke_admin_role(&mut self, caller: ActorId, from: ActorId)
        requires
            old(self)@.admins.contains(caller),
        ensures
            final(self)@ == old(self)@.with_holders(Role::Admin, old(self)@.admins.remove(from)),
    {
        self.state.admins.outside_remove(from);
    }

    /// `caller`, an admin, takes the minter role from `from`. No event is
    /// emitted.
    pub fn revoke_minter_role(&mut self, caller: ActorId, from: ActorId)
        requires
            old(self)@.admins.contains(caller),
        ensures
            final(self)@ == old(self)@.with_holders(
                Role::Minter,
                old(self)@.minters.remove(from),
            ),
    {
        self.state.minters.outside_remove(from);
    }

    /// `caller`, an admin, takes the burner role from `from`. No event is
    /// emitted.
    pub fn revoke_burner_role(&mut self, caller: ActorId, from: ActorId)
        requires
            old(self)@.admins.contains(caller),
        ensures
            final(self)@ == old(self)@.with_holders(
                Role::Burner,
                old(self)@.burners.remove(from),
            ),
    {
        self.state.burners.outside_remove(from);
    }

    /// What `spender` may still take from `owner`.
    pub fn allowance(&self, owner: ActorId, spender: ActorId) -> (r: U256)
        ensures
            r@ == amount_at(self@.allowances, (owner, spender)),
    {
        allowance(&self.state.allowances, owner, spender)
    }

    /// What `account` holds.
    pub fn balance_of(&self, account: ActorId) -> (r: U256)
        ensures
            r@ == amount_at(self@.balances, account),
    {
        balance_of(&self.state.balances, account)
    }

    /// The number of decimals of the token.
    pub fn decimals(&self) -> (r: u8)
        ensures
            r == self@.decimals,
    {
        self.state.meta.decimals
    }

    /// The name of the token.
    pub fn name(&self) -> (r: String)
        ensures
            r@ == self@.name,
    {
        self.state.meta.name.clone()
    }

    /// The symbol of the token.
    pub fn symbol(&self) -> (r: String)
        ensures
            r@ == self@.symbol,
    {
        self.state.meta.symbol.clone()
    }

    /// The amount in circulation.
    pub fn total_supply(&self) -> (r: U256)
        ensures
            r@ == self@.total_supply,
    {
        self.state.total_supply
    }

    /// The minters, each once.
    pub fn minters(&self) -> (r: Vec<ActorId>)
        ensures
            lists_each_once(r@, self@.minters),
    {
        self.state.minters.outside_members()
    }

    /// The burners, each once.
    pub fn burners(&self) -> (r: Vec<ActorId>)
        ensures
            lists_each_once(r@, self@.burners),
    {
        self.state.burners.outside_members()
    }

    /// The admins, each once.
    pub fn admins(&self) -> (r: Vec<ActorId>)
        ensures
            lists_each_once(r@, self@.admins),
    {
        self.state.admins.outside_members()
    }

    /// The whole state as ordered sequences.
    pub fn query_state(&self) -> (r: IoState)
        ensures
            r.mirrors(self@),
    {
        snapshot(&self.state)
    }
}

/// A deployed ledger: the owner of its state, which hands out the service
/// over it.
pub struct Program {
    service: Service,
}

impl View for Program {
    type V = LedgerView;

    closed spec fn view(&self) -> LedgerView {
        self.service@
    }
}

impl Program {
    /// A ledger without balances or allowances, in which each of `admins`
    /// holds all three roles.
    pub fn new(name: String, symbol: String, decimals: u8, admins: Vec<ActorId>) -> (r: Program)
        ensures
            r@ == (LedgerView {
                balances: Map::empty(),
                allowances: Map::empty(),
                total_supply: 0,
                minters: admins@.to_set(),
                burners: admins@.to_set(),
                admins: admins@.to_set(),
                name: name@,
                symbol: symbol@,
                decimals: decimals,
            }),
            r@.sound(),
    {
        Program { service: Service::new(State::new(name, symbol, decimals, admins)) }
    }

    /// The service over the ledger's state. What is done through it is done to
    /// the ledger.
    pub fn service(&mut self) -> (r: &mut Service)
        ensures
            r@ == old(self)@,
            final(self)@ == final(r)@,
    {
        &mut self.service
    }
}

} // verus!
