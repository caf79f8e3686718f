//! What holds of the factory's operations together.
//!
//! Each law is stated over [`FactoryView`], the mathematics that the
//! operations' own contracts speak of.

use vstd::prelude::*;
use crate::primitives::{ActorId, CodeId};
use crate::vft_factory::config::{InitConfigView, TokenView};
use crate::vft_factory::events::{FactoryError, Notice};
use crate::vft_factory::registry::{
    FactoryView, first_at, holds_id, index_of, next_number, whitelist_of,
};
use crate::vft_factory::workflow::{
    AwaitingTokenA, ONE_VARA, Outbound, PoolPlan, Reply, pairing_token, pool_creation_begins,
    pool_with_registered_token_begins,
};

verus! {

/// Recording a deployed ledger keeps the registry consistent, as long as the
/// counter has not reached the largest number: the new id is above every id
/// given out before, so it had no address, and it is recorded once, with one
/// address and one owner.
pub proof fn law_program_created_keeps_consistent(
    factory: FactoryView,
    caller: ActorId,
    address: ActorId,
    init_config: InitConfigView,
)
    requires
        factory.consistent(),
        factory.number < u64::MAX,
    ensures
        factory.after_program_created(caller, address, init_config).consistent(),
        !factory.id_to_address.contains_key(next_number(factory.number)),
{
    let after = factory.after_program_created(caller, address, init_config);
    let id = next_number(factory.number);
    let grown = factory.records_of(caller).push((id, init_config));
    assert(!factory.id_to_address.contains_key(id));
    assert(after.registry[caller] == grown);
    assert(grown[grown.len() - 1].0 == id);
    assert forall|o: ActorId, i: int|
        after.registry.contains_key(o) && 0 <= i < after.registry[o].len() implies {
        let record = #[trigger] after.registry[o][i];
        if o == caller && i == grown.len() - 1 {
            record.0 == id
        } else {
            &&& factory.registry.contains_key(o)
            &&& 0 <= i < factory.registry[o].len()
            &&& record == factory.registry[o][i]
            &&& factory.id_to_address.contains_key(record.0)
            &&& record.0 <= factory.number
        }
    } by {
        if o == caller {
            if i < grown.len() - 1 {
                assert(grown[i] == factory.registry[o][i]);
            }
        } else {
            assert(after.registry[o] == factory.registry[o]);
        }
    }
    assert forall|known: u64| #[trigger] after.id_to_address.contains_key(known) implies
        after.some_owner_holds(known) && known <= after.number by {
        if known == id {
            assert(holds_id(after.registry[caller], known));
        } else {
            assert(factory.id_to_address.contains_key(known));
            let o = choose|o: ActorId|
                factory.registry.contains_key(o) && holds_id(#[trigger] factory.registry[o], known);
            let i = choose|i: int|
                0 <= i < factory.registry[o].len() && (#[trigger] factory.registry[o][i]).0
                    == known;
            if o == caller {
                assert(grown[i] == factory.registry[o][i]);
            } else {
                assert(after.registry[o] == factory.registry[o]);
            }
            assert(after.registry[o][i].0 == known);
            assert(holds_id(after.registry[o], known));
        }
    }
}

/// The counter never goes back: recording a ledger moves it on by one, or
/// leaves it at the largest number, and the id that is given out is the
/// counter after the step. Under that id stands the address of the ledger
/// that was recorded last, and the owner's last record is of that id.
pub proof fn law_counter_moves_on(
    factory: FactoryView,
    caller: ActorId,
    address: ActorId,
    init_config: InitConfigView,
)
    ensures
        factory.after_program_created(caller, address, init_config).number == next_number(
            factory.number,
        ),
        next_number(factory.number) >= factory.number,
        factory.number < u64::MAX ==> next_number(factory.number) == factory.number + 1,
        factory.number == u64::MAX ==> next_number(factory.number) == u64::MAX,
        factory.after_program_created(caller, address, init_config).id_to_address.contains_key(
            next_number(factory.number),
        ),
        factory.after_program_created(caller, address, init_config).id_to_address[next_number(
            factory.number,
        )] == address,
        factory.after_program_created(caller, address, init_config).registry[caller].last() == (
            next_number(factory.number),
            init_config,
        ),
{
}

/// A record of a list from which one record was removed is a record of the
/// list as it was: the one at the same place if it stood before the removed
/// one, else the one after it.
proof fn lemma_removed_index(records: Seq<(u64, InitConfigView)>, position: int, i: int)
    requires
        0 <= position < records.len(),
        0 <= i < records.len() - 1,
    ensures
        records.remove(position).len() == records.len() - 1,
        records.remove(position)[i] == records[if i < position {
            i
        } else {
            i + 1
        }],
{
}

/// A removal that succeeds keeps the registry consistent: the id loses its
/// address and its one record together.
pub proof fn law_removal_keeps_consistent(
    factory: FactoryView,
    caller: ActorId,
    id: u64,
    after: FactoryView,
)
    requires
        factory.consistent(),
        factory.remove_registry_result(caller, id) is Ok,
        factory.remove_registry_leaves(caller, id, after),
    ensures
        after.consistent(),
        !after.id_to_address.contains_key(id),
        !after.some_owner_holds(id),
{
    let (owner, position) = choose|owner: ActorId, position: int|
        factory.registry.contains_key(owner) && #[trigger] first_at(
            factory.registry[owner],
            id,
            position,
        ) && after == factory.without_address(id).without_record(owner, position);
    let before = factory.registry[owner];
    let shrunk = before.remove(position);
    assert(after.registry[owner] == shrunk);
    assert(before[position].0 == id);
    // Every record that is left was a record before, at a place that maps back
    // one to one, and is of another id than the removed one.
    assert forall|o: ActorId, i: int|
        after.registry.contains_key(o) && 0 <= i < after.registry[o].len() implies {
        let record = #[trigger] after.registry[o][i];
        let was_at = if o == owner && i >= position {
            i + 1
        } else {
            i
        };
        &&& factory.registry.contains_key(o)
        &&& 0 <= was_at < factory.registry[o].len()
        &&& record == factory.registry[o][was_at]
        &&& record.0 != id
        &&& factory.id_to_address.contains_key(record.0)
    } by {
        if o == owner {
            lemma_removed_index(before, position, i);
            let was_at = if i >= position {
                i + 1
            } else {
                i
            };
            assert(after.registry[o][i] == before[was_at]);
            if before[was_at].0 == id {
                assert(factory.registry[owner][was_at].0 == factory.registry[owner][position].0);
            }
        } else {
            assert(after.registry[o] == factory.registry[o]);
            if factory.registry[o][i].0 == id {
                assert(factory.registry[o][i].0 == factory.registry[owner][position].0);
            }
        }
    }
    assert forall|known: u64| #[trigger] after.id_to_address.contains_key(known) implies
        after.some_owner_holds(known) && known <= after.number by {
        assert(factory.id_to_address.contains_key(known));
        let o = choose|o: ActorId|
            factory.registry.contains_key(o) && holds_id(#[trigger] factory.registry[o], known);
        let i = choose|i: int|
            0 <= i < factory.registry[o].len() && (#[trigger] factory.registry[o][i]).0 == known;
        if o == owner {
            let now_at = if i < position {
                i
            } else {
                i - 1
            };
            assert(i != position);
            lemma_removed_index(before, position, now_at);
            assert(after.registry[o][now_at].0 == known);
        } else {
            assert(after.registry[o] == factory.registry[o]);
            assert(after.registry[o][i].0 == known);
        }
        assert(holds_id(after.registry[o], known));
    }
    assert forall|o1: ActorId, i: int, o2: ActorId, j: int|
        after.registry.contains_key(o1) && 0 <= i < after.registry[o1].len()
            && after.registry.contains_key(o2) && 0 <= j < after.registry[o2].len() && (
        #[trigger] after.registry[o1][i]).0 == (#[trigger] after.registry[o2][j]).0 implies o1
        == o2 && i == j by {
        let was_i = if o1 == owner && i >= position {
            i + 1
        } else {
            i
        };
        let was_j = if o2 == owner && j >= position {
            j + 1
        } else {
            j
        };
        assert(factory.registry[o1][was_i].0 == factory.registry[o2][was_j].0);
    }
    if after.some_owner_holds(id) {
        let o = choose|o: ActorId|
            after.registry.contains_key(o) && holds_id(#[trigger] after.registry[o], id);
        let i = choose|i: int|
            0 <= i < after.registry[o].len() && (#[trigger] after.registry[o][i]).0 == id;
        assert(false);
    }
}

/// Administration and the whitelist leave the registry alone: after any of
/// these operations, by whomever, the recorded addresses, the records and the
/// counter are what they were.
pub proof fn law_administration_keeps_registry(
    factory: FactoryView,
    caller: ActorId,
    who: ActorId,
    gas: u64,
    code: CodeId,
    name: Seq<char>,
    symbol: Seq<char>,
)
    ensures
        same_registry(factory, factory.after_set_pool_factory_address(caller, who)),
        same_registry(factory, factory.after_update_gas_for_program(caller, gas)),
        same_registry(factory, factory.after_update_code_id(caller, code)),
        same_registry(factory, factory.after_add_admin_to_factory(caller, who)),
        same_registry(factory, factory.after_register_token(name, symbol, who)),
        !factory.is_admin(caller) ==> {
            &&& factory.after_set_pool_factory_address(caller, who) == factory
            &&& factory.after_update_gas_for_program(caller, gas) == factory
            &&& factory.after_update_code_id(caller, code) == factory
            &&& factory.after_add_admin_to_factory(caller, who) == factory
        },
{
}

/// Two factories record the same ledgers: the same addresses, the same
/// records, the same counter; and the second is consistent where the first
/// is.
pub open spec fn same_registry(a: FactoryView, b: FactoryView) -> bool {
    &&& a.number == b.number
    &&& a.id_to_address == b.id_to_address
    &&& a.registry == b.registry
    &&& a.consistent() ==> b.consistent()
}

/// A removal of an id that has an address but no record fails with
/// `IdNotFound`, and the address is gone all the same.
pub proof fn law_removal_without_record(
    factory: FactoryView,
    caller: ActorId,
    id: u64,
    after: FactoryView,
)
    requires
        factory.is_admin(caller),
        factory.id_to_address.contains_key(id),
        !factory.some_owner_holds(id),
        factory.remove_registry_leaves(caller, id, after),
    ensures
        factory.remove_registry_result(caller, id) == Err::<Notice, FactoryError>(
            FactoryError::IdNotFound,
        ),
        !after.id_to_address.contains_key(id),
        after.id_to_address == factory.id_to_address.remove(id),
        after.registry == factory.registry,
{
}

/// A pool creation with a whitelisted token that names no token, in a factory
/// without a default, is refused before anything is sent, whatever value the
/// call carries.
pub proof fn law_no_default_no_request(factory: FactoryView, attached_value: u128, token: ActorId)
    requires
        factory.default_registered_token is None,
    ensures
        pairing_token(factory, None) == Err::<ActorId, FactoryError>(
            FactoryError::DefaultRegisteredTokenIsNotSet,
        ),
        pool_with_registered_token_begins(factory, attached_value, token, None) == Err::<
            (AwaitingTokenA, Outbound),
            FactoryError,
        >(FactoryError::DefaultRegisteredTokenIsNotSet),
{
}

/// Registering one more token keeps the whitelist and its index by name and
/// symbol in step, whether the address or the name and symbol were known
/// before.
pub proof fn law_registration_keeps_step(
    factory: FactoryView,
    name: Seq<char>,
    symbol: Seq<char>,
    address: ActorId,
)
    requires
        factory.whitelist_in_step(),
    ensures
        (FactoryView {
            registered_tokens: factory.registered_tokens.insert(
                address,
                TokenView { name, symbol, address },
            ),
            registered_tokens_by_name_and_symbol:
                factory.registered_tokens_by_name_and_symbol.insert((name, symbol), address),
            ..factory
        }).whitelist_in_step(),
{
}

/// The whitelist and the index that a new factory gets from its list of tokens
/// are in step, even where the list names an address or a name and symbol
/// twice.
pub proof fn law_initial_whitelist_in_step(factory: FactoryView, tokens: Seq<TokenView>)
    requires
        factory.registered_tokens == whitelist_of(tokens),
        factory.registered_tokens_by_name_and_symbol == index_of(tokens),
    ensures
        factory.whitelist_in_step(),
    decreases tokens.len(),
{
    if tokens.len() != 0 {
        let before = FactoryView {
            registered_tokens: whitelist_of(tokens.drop_last()),
            registered_tokens_by_name_and_symbol: index_of(tokens.drop_last()),
            ..factory
        };
        law_initial_whitelist_in_step(before, tokens.drop_last());
        let last = tokens.last();
        law_registration_keeps_step(before, last.name, last.symbol, last.address);
        assert(last == TokenView { name: last.name, symbol: last.symbol, address: last.address });
    }
}

/// A pool creation begins with a request only where the call carries exactly
/// one unit of native value, and that request is the query to the first token.
pub proof fn law_pool_needs_one_unit(
    factory: FactoryView,
    attached_value: u128,
    token_a: ActorId,
    token_b: ActorId,
)
    ensures
        pool_creation_begins(factory, attached_value, token_a, token_b) is Ok <==> attached_value
            == ONE_VARA,
        attached_value != ONE_VARA ==> pool_creation_begins(
            factory,
            attached_value,
            token_a,
            token_b,
        ) == Err::<(AwaitingTokenA, Outbound), FactoryError>(FactoryError::MustAttachOneVara),
{
}

/// A request that could not be sent and a request whose reply failed are the
/// same failure of a step: either hands the step what the host said, and
/// nothing else.
pub proof fn law_any_failure_fails_the_step<T>(message: String)
    ensures
        Reply::<T>::NotSent(message).outcome() == Err::<T, String>(message),
        Reply::<T>::Failed(message).outcome() == Err::<T, String>(message),
{
}

/// A pool creation that has begun sends its requests one at a time and in one
/// order: the query to the first token, the query to the second, the creation,
/// the lookup. Each is sent only when the one before was answered. The first
/// step that fails, because its request could not be sent or because no
/// usable reply came, ends the operation with that step's own error, which
/// carries what the host said; the pair is the answer only when all four
/// steps went well.
pub proof fn law_pool_creation_runs_in_order(
    plan: PoolPlan,
    first: Reply<()>,
    second: Reply<()>,
    third: Reply<()>,
    fourth: Reply<ActorId>,
)
    ensures
        pool_creation_begins_with(plan),
        match (AwaitingTokenA { plan }).resumed(first.outcome()) {
            Err(e) => !(first is Arrived) && e == (FactoryError::VftNotFound {
                error: first.outcome()->Err_0,
                vft_address: plan.token_a,
            }),
            Ok((waiting, send)) => first is Arrived && send == plan.second_probe()
                && match waiting.resumed(second.outcome()) {
                Err(e) => !(second is Arrived) && e == (FactoryError::VftNotFound {
                    error: second.outcome()->Err_0,
                    vft_address: plan.token_b,
                }),
                Ok((waiting, send)) => second is Arrived && send == plan.creation()
                    && match waiting.resumed(third.outcome()) {
                    Err(e) => !(third is Arrived) && e == FactoryError::ErrorWhileCreatingPool(
                        third.outcome()->Err_0,
                    ),
                    Ok((waiting, send)) => third is Arrived && send == plan.lookup()
                        && match waiting.resumed(fourth.outcome()) {
                        Err(e) => !(fourth is Arrived) && e
                            == FactoryError::ErrorWhileGettingPair(fourth.outcome()->Err_0),
                        Ok((pair, notice)) => fourth == Reply::<ActorId>::Arrived(pair) && notice
                            == (Notice::PoolCreated {
                            token_a: plan.token_a,
                            token_b: plan.token_b,
                            pair,
                        }),
                    },
                },
            },
        },
{
}

/// Whatever factory a pool creation for the tokens of `plan` begins in, with
/// one unit attached its first request is the query to the first token.
pub open spec fn pool_creation_begins_with(plan: PoolPlan) -> bool {
    forall|factory: FactoryView|
        factory.pool_factory_address == plan.pool_factory_address ==> #[trigger] pool_creation_begins(
            factory,
            ONE_VARA,
            plan.token_a,
            plan.token_b,
        ) == Ok::<(AwaitingTokenA, Outbound), FactoryError>(
            (AwaitingTokenA { plan }, plan.first_probe()),
        )
}

} // verus!
