//! The factory's state as mathematics, and what each operation does to it.

use vstd::prelude::*;
use crate::primitives::{ActorId, CodeId};
use crate::vft_factory::config::{InitConfigView, TokenView, records_under};
use crate::vft_factory::events::{FactoryError, Notice};

verus! {

/// The whitelist that registering `tokens` one after the other gives: under
/// each address the token registered last.
pub open spec fn whitelist_of(tokens: Seq<TokenView>) -> Map<ActorId, TokenView>
    decreases tokens.len(),
{
    if tokens.len() == 0 {
        Map::empty()
    } else {
        whitelist_of(tokens.drop_last()).insert(tokens.last().address, tokens.last())
    }
}

/// The index that registering `tokens` one after the other gives: under each
/// (name, symbol) the address registered last.
pub open spec fn index_of(tokens: Seq<TokenView>) -> Map<(Seq<char>, Seq<char>), ActorId>
    decreases tokens.len(),
{
    if tokens.len() == 0 {
        Map::empty()
    } else {
        index_of(tokens.drop_last()).insert(
            (tokens.last().name, tokens.last().symbol),
            tokens.last().address,
        )
    }
}

/// Some record of `records` is of `id`.
pub open spec fn holds_id(records: Seq<(u64, InitConfigView)>, id: u64) -> bool {
    exists|i: int| 0 <= i < records.len() && (#[trigger] records[i]).0 == id
}

/// The first record of `id` in `records` is at `position`.
pub open spec fn first_at(records: Seq<(u64, InitConfigView)>, id: u64, position: int) -> bool {
    &&& 0 <= position < records.len()
    &&& records[position].0 == id
    &&& forall|j: int| 0 <= j < position ==> (#[trigger] records[j]).0 != id
}

/// The counter after one more id was given out: it stops at the largest
/// number.
pub open spec fn next_number(number: u64) -> u64 {
    if number == u64::MAX {
        number
    } else {
        (number + 1) as u64
    }
}

/// The factory as mathematics: what a factory state stands for.
pub struct FactoryView {
    /// The id given out last.
    pub number: u64,
    /// The code that new ledgers are instantiated from.
    pub code_id: CodeId,
    /// The admins, in the order in which they were added.
    pub admins: Seq<ActorId>,
    /// The gas that a new ledger is given.
    pub gas_for_program: u64,
    /// Id to the address of the ledger deployed under it.
    pub id_to_address: Map<u64, ActorId>,
    /// Owner to its records, oldest first.
    pub registry: Map<ActorId, Seq<(u64, InitConfigView)>>,
    /// The outside program that creates pools.
    pub pool_factory_address: ActorId,
    /// The whitelist, by address.
    pub registered_tokens: Map<ActorId, TokenView>,
    /// The whitelist, by name and symbol.
    pub registered_tokens_by_name_and_symbol: Map<(Seq<char>, Seq<char>), ActorId>,
    /// The token to pair with where the caller names none.
    pub default_registered_token: Option<ActorId>,
}

impl FactoryView {
    /// Whether `who` is an admin of the factory.
    pub open spec fn is_admin(self, who: ActorId) -> bool {
        self.admins.contains(who)
    }

    /// The records of `owner`; none where it has no entry.
    pub open spec fn records_of(self, owner: ActorId) -> Seq<(u64, InitConfigView)> {
        records_under(self.registry, owner)
    }

    /// Whether some owner has a record of `id`.
    pub open spec fn some_owner_holds(self, id: u64) -> bool {
        exists|owner: ActorId| self.registry.contains_key(owner) && holds_id(
            #[trigger] self.registry[owner],
            id,
        )
    }

    /// The registry invariant: every recorded address has exactly one record,
    /// with one owner; every record has a recorded address; and no id is above
    /// the counter.
    pub open spec fn consistent(self) -> bool {
        &&& forall|id: u64| #[trigger]
            self.id_to_address.contains_key(id) ==> self.some_owner_holds(id) && id <= self.number
        &&& forall|owner: ActorId, i: int|
            self.registry.contains_key(owner) && 0 <= i < self.registry[owner].len()
                ==> self.id_to_address.contains_key((#[trigger] self.registry[owner][i]).0)
        &&& forall|o1: ActorId, i: int, o2: ActorId, j: int|
            self.registry.contains_key(o1) && 0 <= i < self.registry[o1].len()
                && self.registry.contains_key(o2) && 0 <= j < self.registry[o2].len() && (
            #[trigger] self.registry[o1][i]).0 == (#[trigger] self.registry[o2][j]).0 ==> o1 == o2
                && i == j
    }

    /// The whitelist and its index by name and symbol are in step: every
    /// whitelisted token sits under its own address and has an index entry for
    /// its name and symbol, and every index entry names a whitelisted address.
    pub open spec fn whitelist_in_step(self) -> bool {
        &&& forall|address: ActorId| #[trigger]
            self.registered_tokens.contains_key(address) ==> {
                &&& self.registered_tokens[address].address == address
                &&& self.registered_tokens_by_name_and_symbol.contains_key(
                    (self.registered_tokens[address].name, self.registered_tokens[address].symbol),
                )
            }
        &&& forall|key: (Seq<char>, Seq<char>)| #[trigger]
            self.registered_tokens_by_name_and_symbol.contains_key(key)
                ==> self.registered_tokens.contains_key(
                self.registered_tokens_by_name_and_symbol[key],
            )
    }

    /// What `register_token` returns: a refusal where the address is
    /// whitelisted already.
    pub open spec fn register_token_result(self, address: ActorId) -> Result<(), FactoryError> {
        if self.registered_tokens.contains_key(address) {
            Err(FactoryError::UnexpectedFTEvent)
        } else {
            Ok(())
        }
    }

    /// The factory after `register_token(name, symbol, address)`.
    pub open spec fn after_register_token(
        self,
        name: Seq<char>,
        symbol: Seq<char>,
        address: ActorId,
    ) -> FactoryView {
        if self.registered_tokens.contains_key(address) {
            self
        } else {
            FactoryView {
                registered_tokens: self.registered_tokens.insert(
                    address,
                    TokenView { name, symbol, address },
                ),
                registered_tokens_by_name_and_symbol:
                    self.registered_tokens_by_name_and_symbol.insert((name, symbol), address),
                ..self
            }
        }
    }

    /// What an operation that only admins may invoke returns for `caller`:
    /// `Unauthorized` to anyone else, else `notice`.
    pub open spec fn admin_only(self, caller: ActorId, notice: Notice) -> Result<
        Notice,
        FactoryError,
    > {
        if self.is_admin(caller) {
            Ok(notice)
        } else {
            Err(FactoryError::Unauthorized)
        }
    }

    /// The factory after `set_pool_factory_address`.
    pub open spec fn after_set_pool_factory_address(
        self,
        caller: ActorId,
        pool_factory_address: ActorId,
    ) -> FactoryView {
        if self.is_admin(caller) {
            FactoryView { pool_factory_address, ..self }
        } else {
            self
        }
    }

    /// The factory after `update_gas_for_program`.
    pub open spec fn after_update_gas_for_program(
        self,
        caller: ActorId,
        new_gas_amount: u64,
    ) -> FactoryView {
        if self.is_admin(caller) {
            FactoryView { gas_for_program: new_gas_amount, ..self }
        } else {
            self
        }
    }

    /// The factory after `update_code_id`.
    pub open spec fn after_update_code_id(self, caller: ActorId, new_code_id: CodeId) -> FactoryView {
        if self.is_admin(caller) {
            FactoryView { code_id: new_code_id, ..self }
        } else {
            self
        }
    }

    /// The factory after `add_admin_to_factory`.
    pub open spec fn after_add_admin_to_factory(
        self,
        caller: ActorId,
        admin_actor_id: ActorId,
    ) -> FactoryView {
        if self.is_admin(caller) {
            FactoryView { admins: self.admins.push(admin_actor_id), ..self }
        } else {
            self
        }
    }

    /// What `remove_registry(id)` returns for `caller`.
    pub open spec fn remove_registry_result(self, caller: ActorId, id: u64) -> Result<
        Notice,
        FactoryError,
    > {
        if !self.is_admin(caller) {
            Err(FactoryError::Unauthorized)
        } else if !self.id_to_address.contains_key(id) {
            Err(FactoryError::IdNotFoundInAddress)
        } else if !self.some_owner_holds(id) {
            Err(FactoryError::IdNotFound)
        } else {
            Ok(Notice::RegistryRemoved { removed_by: caller, program_for_id: id })
        }
    }

    /// The factory without the address recorded under `id`.
    pub open spec fn without_address(self, id: u64) -> FactoryView {
        FactoryView { id_to_address: self.id_to_address.remove(id), ..self }
    }

    /// The factory without the record of `owner` at `position`.
    pub open spec fn without_record(self, owner: ActorId, position: int) -> FactoryView {
        FactoryView {
            registry: self.registry.insert(owner, self.registry[owner].remove(position)),
            ..self
        }
    }

    /// Whether `after` is the factory after `remove_registry(id)` by `caller`.
    /// The address goes first, and stays removed where no owner has a record of
    /// `id`. Where several owners have one, one of them loses its first: which
    /// one is not said.
    pub open spec fn remove_registry_leaves(self, caller: ActorId, id: u64, after: FactoryView) -> bool {
        if !self.is_admin(caller) || !self.id_to_address.contains_key(id) {
            after == self
        } else if !self.some_owner_holds(id) {
            after == self.without_address(id)
        } else {
            exists|owner: ActorId, position: int|
                self.registry.contains_key(owner) && #[trigger] first_at(
                    self.registry[owner],
                    id,
                    position,
                ) && after == self.without_address(id).without_record(owner, position)
        }
    }

    /// The factory after a ledger deployed at `address` for `caller` was
    /// recorded: the counter moves on, the address is stored under the new
    /// id, and the owner's records grow by one. Once the counter stands at the
    /// largest number the new id is that number again: its address is then
    /// replaced by the new one.
    pub open spec fn after_program_created(
        self,
        caller: ActorId,
        address: ActorId,
        init_config: InitConfigView,
    ) -> FactoryView {
        let id = next_number(self.number);
        FactoryView {
            number: id,
            id_to_address: self.id_to_address.insert(id, address),
            registry: self.registry.insert(caller, self.records_of(caller).push((id, init_config))),
            ..self
        }
    }
}

} // verus!
