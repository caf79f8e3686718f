//! What holds of the ledger's operations together.
//!
//! Each law is stated over [`LedgerView`], the mathematics that the
//! operations' own contracts speak of, so that it holds of every state and of
//! every sequence of calls.

use vstd::prelude::*;
use crate::primitives::{ActorId, u256_modulus};
use crate::vft::ledger::{
    Error, LedgerView, Role, amount_at, approve_allowances, approve_changes, lemma_sum_put,
    lemma_transfer_keeps_sum, transfer_balances, transfer_result,
};
use crate::vft::service::{ContractEvent, emitted, reported};

verus! {

/// The ledger without accounts: what a new ledger stands for, whoever its
/// admins are.
pub open spec fn fresh_ledger(
    name: Seq<char>,
    symbol: Seq<char>,
    decimals: u8,
    admins: Set<ActorId>,
) -> LedgerView {
    LedgerView {
        balances: Map::empty(),
        allowances: Map::empty(),
        total_supply: 0,
        minters: admins,
        burners: admins,
        admins: admins,
        name: name,
        symbol: symbol,
        decimals: decimals,
    }
}

/// A new ledger is sound: its balances add up to its supply, and it has no
/// entry at all.
pub proof fn law_fresh_ledger_is_sound(
    name: Seq<char>,
    symbol: Seq<char>,
    decimals: u8,
    admins: Set<ActorId>,
)
    ensures
        fresh_ledger(name, symbol, decimals, admins).sound(),
{
}

/// Every operation keeps a sound ledger sound, whether it succeeds, is
/// refused or changes nothing: in every state that calls can reach, the
/// balances add up to the total supply and no balance or allowance entry holds
/// zero.
pub proof fn law_operations_keep_sound(
    ledger: LedgerView,
    a: ActorId,
    b: ActorId,
    c: ActorId,
    value: nat,
    role: Role,
    holders: Set<ActorId>,
)
    requires
        ledger.sound(),
    ensures
        ledger.after_approve(a, b, value).sound(),
        ledger.after_transfer(a, b, value).sound(),
        ledger.after_transfer_from(c, a, b, value).sound(),
        ledger.after_mint(a, value).sound(),
        ledger.after_burn(a, value).sound(),
        ledger.with_holders(role, holders).sound(),
{
    lemma_transfer_keeps_sum(ledger.balances, a, b, value);
    lemma_sum_put(ledger.balances, a, amount_at(ledger.balances, a) + value);
    if amount_at(ledger.balances, a) >= value {
        lemma_sum_put(ledger.balances, a, (amount_at(ledger.balances, a) - value) as nat);
    }
}

/// The name, the symbol and the number of decimals are fixed: no operation
/// changes them. Nor does any operation on amounts change who holds a role.
pub proof fn law_metadata_is_fixed(
    ledger: LedgerView,
    a: ActorId,
    b: ActorId,
    c: ActorId,
    value: nat,
    role: Role,
    holders: Set<ActorId>,
)
    ensures
        same_token(ledger, ledger.after_approve(a, b, value)),
        same_token(ledger, ledger.after_transfer(a, b, value)),
        same_token(ledger, ledger.after_transfer_from(c, a, b, value)),
        same_token(ledger, ledger.after_mint(a, value)),
        same_token(ledger, ledger.after_burn(a, value)),
        same_token(ledger, ledger.with_holders(role, holders)),
        same_roles(ledger, ledger.after_approve(a, b, value)),
        same_roles(ledger, ledger.after_transfer(a, b, value)),
        same_roles(ledger, ledger.after_transfer_from(c, a, b, value)),
        same_roles(ledger, ledger.after_mint(a, value)),
        same_roles(ledger, ledger.after_burn(a, value)),
{
}

/// Two ledgers are of the same token: the same name, symbol and decimals.
pub open spec fn same_token(a: LedgerView, b: LedgerView) -> bool {
    a.name == b.name && a.symbol == b.symbol && a.decimals == b.decimals
}

/// Two ledgers have the same admins, minters and burners.
pub open spec fn same_roles(a: LedgerView, b: LedgerView) -> bool {
    a.admins == b.admins && a.minters == b.minters && a.burners == b.burners
}

/// Approving zero where the spender has no allowance reports no change and
/// changes nothing; where it has one, the entry is removed and a change is
/// reported.
pub proof fn law_approve_zero(ledger: LedgerView, owner: ActorId, spender: ActorId)
    requires
        ledger.sound(),
    ensures
        !ledger.allowances.contains_key((owner, spender)) ==> {
            &&& !approve_changes(ledger.allowances, owner, spender, 0)
            &&& ledger.after_approve(owner, spender, 0) == ledger
        },
        ledger.allowances.contains_key((owner, spender)) ==> {
            &&& approve_changes(ledger.allowances, owner, spender, 0)
            &&& approve_allowances(ledger.allowances, owner, spender, 0)
                == ledger.allowances.remove((owner, spender))
        },
{
    if !ledger.allowances.contains_key((owner, spender)) {
        assert(ledger.allowances.remove((owner, spender)) =~= ledger.allowances);
    }
}

/// A mint that is not refused, followed by a burn of the same amount on the
/// same account, gives back the ledger as it was: the same total supply and
/// the same balances.
pub proof fn law_mint_then_burn(ledger: LedgerView, to: ActorId, value: nat)
    requires
        ledger.sound(),
        ledger.mint_result(to, value) is Ok,
    ensures
        ledger.after_mint(to, value).burn_result(to, value) == ledger.mint_result(to, value),
        ledger.after_mint(to, value).after_burn(to, value) == ledger,
{
    if value != 0 {
        let minted = ledger.after_mint(to, value);
        lemma_sum_put(ledger.balances, to, amount_at(ledger.balances, to) + value);
        let burned = minted.after_burn(to, value);
        assert(burned.balances =~= ledger.balances);
    }
}

/// A spender that is the owner transfers: `transfer_from` returns what
/// `transfer` returns and leaves the ledger that `transfer` leaves, whatever
/// the allowance table holds.
pub proof fn law_owner_spends_as_transfer(
    ledger: LedgerView,
    allowances: Map<(ActorId, ActorId), nat>,
    from: ActorId,
    to: ActorId,
    value: nat,
)
    ensures
        ledger.transfer_from_result(from, from, to, value) == transfer_result(
            ledger.balances,
            from,
            to,
            value,
        ),
        ledger.after_transfer_from(from, from, to, value) == ledger.after_transfer(from, to, value),
        (LedgerView { allowances, ..ledger }).transfer_from_result(from, from, to, value)
            == ledger.transfer_from_result(from, from, to, value),
        (LedgerView { allowances, ..ledger }).after_transfer_from(from, from, to, value)
            == (LedgerView { allowances, ..ledger.after_transfer(from, to, value) }),
{
}

/// A transfer to oneself reports no change, changes nothing and emits no
/// event, whatever the amount.
pub proof fn law_transfer_to_self(
    ledger: LedgerView,
    account: ActorId,
    value: nat,
    event: ContractEvent,
)
    ensures
        transfer_result(ledger.balances, account, account, value) == Ok::<bool, Error>(false),
        transfer_balances(ledger.balances, account, account, value) == ledger.balances,
        ledger.after_transfer(account, account, value) == ledger,
        reported(transfer_result(ledger.balances, account, account, value), event) == Ok::<
            (bool, Option<ContractEvent>),
            Error,
        >((false, None)),
{
}

/// A mint that would take the total supply or the receiver's balance out of
/// 256 bits is refused with `NumericOverflow`, and leaves the ledger as it
/// was.
pub proof fn law_mint_overflow(ledger: LedgerView, to: ActorId, value: nat)
    requires
        value > 0,
        ledger.total_supply + value >= u256_modulus() || amount_at(ledger.balances, to) + value
            >= u256_modulus(),
    ensures
        ledger.mint_result(to, value) == Err::<bool, Error>(Error::NumericOverflow),
        ledger.after_mint(to, value) == ledger,
{
}

/// A call that is refused, or that reports no change, emits no event; a call
/// that reports a change emits exactly its one event.
pub proof fn law_one_event_per_change(result: Result<bool, Error>, event: ContractEvent)
    ensures
        match reported(result, event) {
            Ok((changed, emits)) => result == Ok::<bool, Error>(changed) && emits == emitted(
                changed,
                event,
            ) && (emits is Some <==> changed),
            Err(e) => result == Err::<bool, Error>(e),
        },
{
}

} // verus!
