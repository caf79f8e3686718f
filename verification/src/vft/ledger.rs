//! What the ledger's operations do, stated over maps of numbers, and the
//! operations that touch the balance table or the allowance table alone.
//!
//! An account without an entry holds the amount zero, and an entry never holds
//! zero: a write of zero removes the entry.

use vstd::prelude::*;
use crate::primitives::{ActorId, U256, u256_modulus, lemma_u256_bounded, lemma_u256_injective};
use crate::vft::storage::{AllowancesMap, BalancesMap};

verus! {

/// Why an operation on the ledger was refused.
#[derive(Clone, Copy, Debug, PartialEq, Eq, PartialOrd, Ord, Structural)]
pub enum Error {
    /// The spender may take less than the amount asked for.
    InsufficientAllowance,
    /// The account holds less than the amount asked for.
    InsufficientBalance,
    /// The sum would not fit in 256 bits.
    NumericOverflow,
    /// The total supply is less than the amount to burn.
    Underflow,
}

/// The amount stored under `key`; zero where there is no entry.
pub open spec fn amount_at<K>(entries: Map<K, nat>, key: K) -> nat {
    if entries.contains_key(key) {
        entries[key]
    } else {
        0
    }
}

/// `entries` with `amount` written under `key`: a write of zero removes the
/// entry.
pub open spec fn put_amount<K>(entries: Map<K, nat>, key: K, amount: nat) -> Map<K, nat> {
    if amount == 0 {
        entries.remove(key)
    } else {
        entries.insert(key, amount)
    }
}

/// No entry holds zero.
pub open spec fn no_zero_entry<K>(entries: Map<K, nat>) -> bool {
    forall|k: K| entries.contains_key(k) ==> #[trigger] entries[k] > 0
}

/// The sum of all balances.
pub open spec fn sum_of(balances: Map<ActorId, nat>) -> nat
    decreases balances.dom().len(),
    when balances.dom().finite()
{
    if balances.dom().len() == 0 {
        0
    } else {
        let k = balances.dom().choose();
        balances[k] + sum_of(balances.remove(k))
    }
}

/// Whether `approve(owner, spender, value)` changes the allowance table.
pub open spec fn approve_changes(
    allowances: Map<(ActorId, ActorId), nat>,
    owner: ActorId,
    spender: ActorId,
    value: nat,
) -> bool {
    if owner == spender {
        false
    } else if value == 0 {
        allowances.contains_key((owner, spender))
    } else {
        amount_at(allowances, (owner, spender)) != value
    }
}

/// The allowance table after `approve(owner, spender, value)`.
pub open spec fn approve_allowances(
    allowances: Map<(ActorId, ActorId), nat>,
    owner: ActorId,
    spender: ActorId,
    value: nat,
) -> Map<(ActorId, ActorId), nat> {
    if owner == spender {
        allowances
    } else {
        put_amount(allowances, (owner, spender), value)
    }
}

/// What `transfer(from, to, value)` returns: `Ok(false)` for a transfer to
/// oneself or of nothing, an error where the sender holds too little or the
/// receiver would hold too much, else `Ok(true)`.
pub open spec fn transfer_result(
    balances: Map<ActorId, nat>,
    from: ActorId,
    to: ActorId,
    value: nat,
) -> Result<bool, Error> {
    if from == to || value == 0 {
        Ok(false)
    } else if amount_at(balances, from) < value {
        Err(Error::InsufficientBalance)
    } else if amount_at(balances, to) + value >= u256_modulus() {
        Err(Error::NumericOverflow)
    } else {
        Ok(true)
    }
}

/// The balance table after `transfer(from, to, value)`: changed only where the
/// transfer returns `Ok(true)`.
pub open spec fn transfer_balances(
    balances: Map<ActorId, nat>,
    from: ActorId,
    to: ActorId,
    value: nat,
) -> Map<ActorId, nat> {
    if transfer_result(balances, from, to, value) == Ok::<bool, Error>(true) {
        put_amount(balances, from, (amount_at(balances, from) - value) as nat).insert(
            to,
            amount_at(balances, to) + value,
        )
    } else {
        balances
    }
}

/// One of the three roles of the ledger. Holding one role implies no other.
#[derive(Clone, Copy, Debug, PartialEq, Eq, Structural)]
pub enum Role {
    /// May grant and revoke roles.
    Admin,
    /// May mint.
    Minter,
    /// May burn.
    Burner,
}

/// The ledger as mathematics: what a ledger state stands for.
pub struct LedgerView {
    /// Account to balance; an account without an entry holds zero.
    pub balances: Map<ActorId, nat>,
    /// (owner, spender) to what the spender may still take.
    pub allowances: Map<(ActorId, ActorId), nat>,
    /// The amount in circulation.
    pub total_supply: nat,
    pub minters: Set<ActorId>,
    pub burners: Set<ActorId>,
    pub admins: Set<ActorId>,
    pub name: Seq<char>,
    pub symbol: Seq<char>,
    pub decimals: u8,
}

impl LedgerView {
    /// The invariant of the ledger: the balances add up to the total supply,
    /// no entry holds zero, and nobody has an allowance on its own account.
    pub open spec fn sound(self) -> bool {
        &&& self.balances.dom().finite()
        &&& sum_of(self.balances) == self.total_supply
        &&& no_zero_entry(self.balances)
        &&& no_zero_entry(self.allowances)
        &&& forall|a: ActorId| !self.allowances.contains_key((a, a))
    }

    /// The holders of `role`.
    pub open spec fn holders(self, role: Role) -> Set<ActorId> {
        match role {
            Role::Admin => self.admins,
            Role::Minter => self.minters,
            Role::Burner => self.burners,
        }
    }

    /// The ledger with the holders of `role` replaced.
    pub open spec fn with_holders(self, role: Role, holders: Set<ActorId>) -> LedgerView {
        match role {
            Role::Admin => LedgerView { admins: holders, ..self },
            Role::Minter => LedgerView { minters: holders, ..self },
            Role::Burner => LedgerView { burners: holders, ..self },
        }
    }

    /// What `mint(to, value)` returns: `Ok(false)` for a mint of nothing, an
    /// overflow where the supply or the receiver's balance would leave 256
    /// bits, else `Ok(true)`.
    pub open spec fn mint_result(self, to: ActorId, value: nat) -> Result<bool, Error> {
        if value == 0 {
            Ok(false)
        } else if self.total_supply + value >= u256_modulus() {
            Err(Error::NumericOverflow)
        } else if amount_at(self.balances, to) + value >= u256_modulus() {
            Err(Error::NumericOverflow)
        } else {
            Ok(true)
        }
    }

    /// The ledger after `mint(to, value)`: changed only where the mint returns
    /// `Ok(true)`.
    pub open spec fn after_mint(self, to: ActorId, value: nat) -> LedgerView {
        if self.mint_result(to, value) == Ok::<bool, Error>(true) {
            LedgerView {
                balances: self.balances.insert(to, amount_at(self.balances, to) + value),
                total_supply: self.total_supply + value,
                ..self
            }
        } else {
            self
        }
    }

    /// What `burn(from, value)` returns: `Ok(false)` for a burn of nothing,
    /// `Underflow` where the supply is less than `value`, `InsufficientBalance`
    /// where the account holds less, else `Ok(true)`.
    pub open spec fn burn_result(self, from: ActorId, value: nat) -> Result<bool, Error> {
        if value == 0 {
            Ok(false)
        } else if self.total_supply < value {
            Err(Error::Underflow)
        } else if amount_at(self.balances, from) < value {
            Err(Error::InsufficientBalance)
        } else {
            Ok(true)
        }
    }

    /// The ledger after `burn(from, value)`: changed only where the burn
    /// returns `Ok(true)`.
    pub open spec fn after_burn(self, from: ActorId, value: nat) -> LedgerView {
        if self.burn_result(from, value) == Ok::<bool, Error>(true) {
            LedgerView {
                balances: put_amount(
                    self.balances,
                    from,
                    (amount_at(self.balances, from) - value) as nat,
                ),
                total_supply: (self.total_supply - value) as nat,
                ..self
            }
        } else {
            self
        }
    }

    /// The ledger after `transfer(from, to, value)`.
    pub open spec fn after_transfer(self, from: ActorId, to: ActorId, value: nat) -> LedgerView {
        LedgerView { balances: transfer_balances(self.balances, from, to, value), ..self }
    }

    /// The ledger after `approve(owner, spender, value)`.
    pub open spec fn after_approve(self, owner: ActorId, spender: ActorId, value: nat) -> LedgerView {
        LedgerView {
            allowances: approve_allowances(self.allowances, owner, spender, value),
            ..self
        }
    }

    /// What `transfer_from(spender, from, to, value)` returns. A spender that
    /// is the owner transfers, and no allowance is looked at. Any other spender
    /// needs an allowance of at least `value`, and then the transfer decides.
    pub open spec fn transfer_from_result(
        self,
        spender: ActorId,
        from: ActorId,
        to: ActorId,
        value: nat,
    ) -> Result<bool, Error> {
        if spender == from {
            transfer_result(self.balances, from, to, value)
        } else if from == to || value == 0 {
            Ok(false)
        } else if amount_at(self.allowances, (from, spender)) < value {
            Err(Error::InsufficientAllowance)
        } else {
            transfer_result(self.balances, from, to, value)
        }
    }

    /// The ledger after `transfer_from(spender, from, to, value)`: where it
    /// returns `Ok(true)` the balances are those of the transfer, and a spender
    /// that is not the owner has its allowance reduced by `value`.
    pub open spec fn after_transfer_from(
        self,
        spender: ActorId,
        from: ActorId,
        to: ActorId,
        value: nat,
    ) -> LedgerView {
        if spender == from {
            self.after_transfer(from, to, value)
        } else if self.transfer_from_result(spender, from, to, value) == Ok::<bool, Error>(true) {
            LedgerView {
                balances: transfer_balances(self.balances, from, to, value),
                allowances: put_amount(
                    self.allowances,
                    (from, spender),
                    (amount_at(self.allowances, (from, spender)) - value) as nat,
                ),
                ..self
            }
        } else {
            self
        }
    }
}

/// The sum of a table is the amount under any one key plus the sum of the rest.
pub proof fn lemma_sum_split(balances: Map<ActorId, nat>, key: ActorId)
    requires
        balances.dom().finite(),
        balances.contains_key(key),
    ensures
        sum_of(balances) == balances[key] + sum_of(balances.remove(key)),
    decreases balances.dom().len(),
{
    let k = balances.dom().choose();
    assert(balances.dom().len() != 0);
    if k != key {
        let rest = balances.remove(k);
        lemma_sum_split(rest, key);
        let other = balances.remove(key);
        assert(other.contains_key(k));
        lemma_sum_split(other, k);
        assert(rest.remove(key) =~= other.remove(k));
    }
}

/// Writing `amount` under `key` replaces that key's share of the sum.
pub proof fn lemma_sum_put(balances: Map<ActorId, nat>, key: ActorId, amount: nat)
    requires
        balances.dom().finite(),
    ensures
        put_amount(balances, key, amount).dom().finite(),
        sum_of(put_amount(balances, key, amount)) + amount_at(balances, key) == sum_of(balances)
            + amount,
{
    let rest = balances.remove(key);
    if balances.contains_key(key) {
        lemma_sum_split(balances, key);
    } else {
        assert(rest =~= balances);
    }
    if amount != 0 {
        let written = balances.insert(key, amount);
        lemma_sum_split(written, key);
        assert(written.remove(key) =~= rest);
    }
}

/// A transfer moves an amount between two accounts: the sum of all balances
/// stays, and so does the rule that no entry holds zero.
pub proof fn lemma_transfer_keeps_sum(
    balances: Map<ActorId, nat>,
    from: ActorId,
    to: ActorId,
    value: nat,
)
    requires
        balances.dom().finite(),
    ensures
        transfer_balances(balances, from, to, value).dom().finite(),
        sum_of(transfer_balances(balances, from, to, value)) == sum_of(balances),
        no_zero_entry(balances) ==> no_zero_entry(transfer_balances(balances, from, to, value)),
{
    if transfer_result(balances, from, to, value) == Ok::<bool, Error>(true) {
        let left = (amount_at(balances, from) - value) as nat;
        let taken = put_amount(balances, from, left);
        lemma_sum_put(balances, from, left);
        assert(amount_at(taken, to) == amount_at(balances, to));
        let given = amount_at(balances, to) + value;
        lemma_sum_put(taken, to, given);
        assert(put_amount(taken, to, given) == transfer_balances(balances, from, to, value));
    }
}

/// The amount that `owner` holds; zero where the table has no entry.
pub fn balance_of(balances: &BalancesMap, owner: ActorId) -> (r: U256)
    ensures
        r@ == amount_at(balances@, owner),
{
    match balances.outside_get(owner) {
        Some(amount) => amount,
        None => U256::zero(),
    }
}

/// The amount that `spender` may take from `owner`; zero where the table has
/// no entry.
pub fn allowance(allowances: &AllowancesMap, owner: ActorId, spender: ActorId) -> (r: U256)
    ensures
        r@ == amount_at(allowances@, (owner, spender)),
{
    match allowances.outside_get((owner, spender)) {
        Some(amount) => amount,
        None => U256::zero(),
    }
}

/// Sets what `spender` may take from `owner` to `value`, and returns whether
/// the table changed. An owner cannot approve itself, and a value of zero
/// removes the entry.
pub fn approve(
    allowances: &mut AllowancesMap,
    owner: ActorId,
    spender: ActorId,
    value: U256,
) -> (r: bool)
    ensures
        r == approve_changes(old(allowances)@, owner, spender, value@),
        final(allowances)@ == approve_allowances(old(allowances)@, owner, spender, value@),
        no_zero_entry(old(allowances)@) ==> no_zero_entry(final(allowances)@),
{
    if owner == spender {
        return false;
    }
    let key = (owner, spender);
    if value.outside_is_zero() {
        return allowances.outside_remove(key).is_some();
    }
    let prev = allowances.outside_insert(key, value);
    match prev {
        Some(before) => {
            proof {
                if before@ == value@ {
                    lemma_u256_injective(before, value);
                }
            }
            before != value
        },
        None => true,
    }
}

/// Moves `value` from `from` to `to`, and returns whether the table changed.
/// A transfer to oneself or of nothing changes nothing; a refused transfer
/// leaves the table as it was.
pub fn transfer(balances: &mut BalancesMap, from: ActorId, to: ActorId, value: U256) -> (r: Result<
    bool,
    Error,
>)
    ensures
        r == transfer_result(old(balances)@, from, to, value@),
        final(balances)@ == transfer_balances(old(balances)@, from, to, value@),
{
    if from == to || value.outside_is_zero() {
        return Ok(false);
    }
    let new_from = match balance_of(balances, from).outside_checked_sub(value) {
        Some(left) => left,
        None => { return Err(Error::InsufficientBalance); },
    };
    let new_to = match balance_of(balances, to).outside_checked_add(value) {
        Some(sum) => sum,
        None => { return Err(Error::NumericOverflow); },
    };
    proof {
        lemma_u256_bounded(new_to);
    }
    if !new_from.outside_is_zero() {
        balances.outside_insert(from, new_from);
    } else {
        balances.outside_remove(from);
    }
    balances.outside_insert(to, new_to);
    Ok(true)
}

} // verus!
