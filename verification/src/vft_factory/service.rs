//! The factory's state, its administration and its queries.
//!
//! Who calls is an argument: the host reads it from the message and hands it
//! in. A successful operation returns the answer for the caller together with
//! the event to emit.

use vstd::prelude::*;
use crate::listing::{lists_each_once, lists_map};
use crate::primitives::{ActorId, CodeId};
use crate::vft_factory::config::{
    DexToken, InitConfigFactory, InitConfigView, VftInitConfig, copy_accounts, copy_records,
    records_view, tokens_view,
};
use crate::vft_factory::events::{ContractEvent, ContractResponse, FactoryError, Notice, announces};
use crate::vft_factory::laws::{
    law_initial_whitelist_in_step, law_registration_keeps_step, law_removal_keeps_consistent,
};
use crate::vft_factory::registry::{FactoryView, first_at, holds_id, index_of, whitelist_of};
use crate::vft_factory::storage::{IdToAddress, NameSymbolIndex, Registry, TokenMap};

verus! {

/// The state of the factory.
pub struct State {
    pub number: u64,
    pub code_id: CodeId,
    pub factory_admin_account: Vec<ActorId>,
    pub gas_for_program: u64,
    pub id_to_address: IdToAddress,
    pub registry: Registry,
    pub pool_factory_address: ActorId,
    pub registered_tokens: TokenMap,
    pub registered_tokens_by_name_and_symbol: NameSymbolIndex,
    pub default_registered_token: Option<ActorId>,
}

impl View for State {
    type V = FactoryView;

    open spec fn view(&self) -> FactoryView {
        FactoryView {
            number: self.number,
            code_id: self.code_id,
            admins: self.factory_admin_account@,
            gas_for_program: self.gas_for_program,
            id_to_address: self.id_to_address@,
            registry: self.registry@,
            pool_factory_address: self.pool_factory_address,
            registered_tokens: self.registered_tokens@,
            registered_tokens_by_name_and_symbol: self.registered_tokens_by_name_and_symbol@,
            default_registered_token: self.default_registered_token,
        }
    }
}

/// The factory that `config` describes: nothing deployed yet, and the tokens of
/// `config` registered one after the other.
pub open spec fn created_from(config: InitConfigFactory) -> FactoryView {
    FactoryView {
        number: 0,
        code_id: config.code_id,
        admins: config.factory_admin_account@,
        gas_for_program: config.gas_for_program,
        id_to_address: Map::empty(),
        registry: Map::empty(),
        pool_factory_address: config.pool_factory_address,
        registered_tokens: whitelist_of(tokens_view(config.registered_tokens@)),
        registered_tokens_by_name_and_symbol: index_of(tokens_view(config.registered_tokens@)),
        default_registered_token: config.default_registered_token,
    }
}

impl State {
    /// The factory that `config` describes.
    pub fn new(config: InitConfigFactory) -> (r: State)
        ensures
            r@ == created_from(config),
            r@.consistent(),
            r@.whitelist_in_step(),
    {
        let mut registered_tokens = TokenMap::new();
        let mut registered_tokens_by_name_and_symbol = NameSymbolIndex::new();
        let ghost tokens = tokens_view(config.registered_tokens@);
        let mut i: usize = 0;
        while i < config.registered_tokens.len()
            invariant
                i <= config.registered_tokens.len(),
                tokens == tokens_view(config.registered_tokens@),
                registered_tokens@ == whitelist_of(tokens.take(i as int)),
                registered_tokens_by_name_and_symbol@ == index_of(tokens.take(i as int)),
            decreases config.registered_tokens.len() - i,
        {
            let token = &config.registered_tokens[i];
            registered_tokens.outside_insert(token.address, token.clone());
            registered_tokens_by_name_and_symbol.outside_insert(
                token.name.clone(),
                token.symbol.clone(),
                token.address,
            );
            i += 1;
            proof {
                assert(tokens.take(i as int).drop_last() =~= tokens.take(i - 1));
                assert(tokens.take(i as int).last() == token@);
            }
        }
        proof {
            assert(tokens.take(i as int) =~= tokens);
        }
        let state = State {
            number: 0,
            code_id: config.code_id,
            factory_admin_account: config.factory_admin_account,
            gas_for_program: config.gas_for_program,
            id_to_address: IdToAddress::new(),
            registry: Registry::new(),
            pool_factory_address: config.pool_factory_address,
            registered_tokens,
            registered_tokens_by_name_and_symbol,
            default_registered_token: config.default_registered_token,
        };
        proof {
            law_initial_whitelist_in_step(state@, tokens);
        }
        state
    }
}

/// `listed` holds the records of every owner of `registry` exactly once, in
/// some order.
pub open spec fn lists_registry(
    listed: Seq<(ActorId, Vec<(u64, VftInitConfig)>)>,
    registry: Map<ActorId, Seq<(u64, InitConfigView)>>,
) -> bool {
    &&& lists_each_once(
        listed.map_values(|e: (ActorId, Vec<(u64, VftInitConfig)>)| e.0),
        registry.dom(),
    )
    &&& forall|i: int|
        0 <= i < listed.len() ==> registry[(#[trigger] listed[i]).0] == records_view(listed[i].1@)
}

/// The records of every owner, each owner once.
fn list_registry(registry: &Registry) -> (r: Vec<(ActorId, Vec<(u64, VftInitConfig)>)>)
    ensures
        lists_registry(r@, registry@),
{
    let owners = registry.outside_owners();
    let mut listed: Vec<(ActorId, Vec<(u64, VftInitConfig)>)> = Vec::new();
    let mut i: usize = 0;
    while i < owners.len()
        invariant
            i <= owners.len(),
            lists_each_once(owners@, registry@.dom()),
            listed@.len() == i,
            forall|j: int|
                0 <= j < i ==> (#[trigger] listed@[j]).0 == owners@[j] && registry@[owners@[j]]
                    == records_view(listed@[j].1@),
        decreases owners.len() - i,
    {
        let owner = owners[i];
        assert(owners@.contains(owner));
        match registry.outside_get(owner) {
            Some(records) => {
                listed.push((owner, copy_records(records)));
            },
            None => {
                assert(false);
            },
        }
        i += 1;
    }
    assert(listed@.map_values(|e: (ActorId, Vec<(u64, VftInitConfig)>)| e.0) =~= owners@);
    listed
}

/// The state of the factory as ordered sequences, for inspection from outside.
#[derive(Debug, PartialEq, Eq)]
pub struct IoState {
    pub number: u64,
    pub code_id: CodeId,
    pub factory_admin_account: Vec<ActorId>,
    pub gas_for_program: u64,
    pub id_to_address: Vec<(u64, ActorId)>,
    pub registry: Vec<(ActorId, Vec<(u64, VftInitConfig)>)>,
}

impl IoState {
    /// The snapshot shows `factory`: its configuration, and every address and
    /// every owner's records exactly once, in an order of which nothing is
    /// said.
    pub open spec fn mirrors(&self, factory: FactoryView) -> bool {
        &&& self.number == factory.number
        &&& self.code_id == factory.code_id
        &&& self.factory_admin_account@ == factory.admins
        &&& self.gas_for_program == factory.gas_for_program
        &&& lists_map(self.id_to_address@, factory.id_to_address)
        &&& lists_registry(self.registry@, factory.registry)
    }

    /// The snapshot of `value`.
    pub fn from(value: State) -> (r: IoState)
        ensures
            r.mirrors(value@),
    {
        IoState {
            number: value.number,
            code_id: value.code_id,
            id_to_address: value.id_to_address.outside_entries(),
            registry: list_registry(&value.registry),
            factory_admin_account: value.factory_admin_account,
            gas_for_program: value.gas_for_program,
        }
    }
}

/// The position of the first record of `id`, if there is one.
fn position_of(records: &Vec<(u64, VftInitConfig)>, id: u64) -> (r: Option<usize>)
    ensures
        match r {
            Some(position) => first_at(records_view(records@), id, position as int),
            None => !holds_id(records_view(records@), id),
        },
{
    let mut i: usize = 0;
    while i < records.len()
        invariant
            i <= records.len(),
            forall|j: int| 0 <= j < i ==> (#[trigger] records_view(records@)[j]).0 != id,
        decreases records.len() - i,
    {
        if records[i].0 == id {
            return Some(i);
        }
        i += 1;
    }
    None
}

/// The operations of the factory, as its callers see them.
pub struct Service {
    pub state: State,
}

impl View for Service {
    type V = FactoryView;

    open spec fn view(&self) -> FactoryView {
        self.state@
    }
}

impl Service {
    /// The service over `state`.
    pub fn new(state: State) -> (r: Service)
        ensures
            r.state == state,
    {
        Service { state }
    }

    /// Whether `who` is an admin of the factory. Every admin check of the
    /// factory is this one.
    pub fn is_admin(&self, who: ActorId) -> (r: bool)
        ensures
            r == self@.is_admin(who),
    {
        let admins = &self.state.factory_admin_account;
        let mut i: usize = 0;
        while i < admins.len()
            invariant
                i <= admins.len(),
                admins@ == self@.admins,
                forall|j: int| 0 <= j < i ==> admins@[j] != who,
            decreases admins.len() - i,
        {
            if admins[i] == who {
                assert(admins@[i as int] == who);
                return true;
            }
            i += 1;
        }
        false
    }

    /// `caller`, an admin, names the program that creates pools. Returns the
    /// event to emit.
    pub fn set_pool_factory_address(&mut self, caller: ActorId, pool_factory_address: ActorId) -> (r:
        Result<ContractEvent, FactoryError>)
        ensures
            match r {
                Ok(event) => old(self)@.is_admin(caller) && event@
                    == (Notice::PoolFactoryAddressUpdated {
                    updated_by: caller,
                    new_pool_factory_address: pool_factory_address,
                }),
                Err(e) => !old(self)@.is_admin(caller) && e == FactoryError::Unauthorized,
            },
            final(self)@ == old(self)@.after_set_pool_factory_address(caller, pool_factory_address),
    {
        if !self.is_admin(caller) {
            return Err(FactoryError::Unauthorized);
        }
        self.state.pool_factory_address = pool_factory_address;
        Ok(
            ContractEvent::PoolFactoryAddressUpdated {
                updated_by: caller,
                new_pool_factory_address: pool_factory_address,
            },
        )
    }

    /// Puts a token on the whitelist, under its address and under its name and
    /// symbol. An address that is whitelisted already is refused.
    pub fn register_token(&mut self, name: String, symbol: String, address: ActorId) -> (r: Result<
        (),
        FactoryError,
    >)
        ensures
            r == old(self)@.register_token_result(address),
            final(self)@ == old(self)@.after_register_token(name@, symbol@, address),
            old(self)@.whitelist_in_step() ==> final(self)@.whitelist_in_step(),
    {
        if self.state.registered_tokens.outside_contains_key(address) {
            return Err(FactoryError::UnexpectedFTEvent);
        }
        proof {
            if self@.whitelist_in_step() {
                law_registration_keeps_step(self@, name@, symbol@, address);
            }
        }
        let token = DexToken { name: name.clone(), symbol: symbol.clone(), address };
        self.state.registered_tokens.outside_insert(address, token);
        self.state.registered_tokens_by_name_and_symbol.outside_insert(name, symbol, address);
        Ok(())
    }

    /// `caller`, an admin, sets the gas that a new ledger is given.
    pub fn update_gas_for_program(&mut self, caller: ActorId, new_gas_amount: u64) -> (r: Result<
        (ContractResponse, ContractEvent),
        FactoryError,
    >)
        ensures
            announces(
                r,
                old(self)@.admin_only(
                    caller,
                    Notice::GasUpdatedSuccessfully { updated_by: caller, new_gas_amount },
                ),
            ),
            final(self)@ == old(self)@.after_update_gas_for_program(caller, new_gas_amount),
    {
        if self.is_admin(caller) {
            self.state.gas_for_program = new_gas_amount;
            Ok(
                (
                    ContractResponse::GasUpdatedSuccessfully { updated_by: caller, new_gas_amount },
                    ContractEvent::GasUpdatedSuccessfully { updated_by: caller, new_gas_amount },
                ),
            )
        } else {
            Err(FactoryError::Unauthorized)
        }
    }

    /// `caller`, an admin, sets the code that new ledgers are instantiated
    /// from.
    pub fn update_code_id(&mut self, caller: ActorId, new_code_id: CodeId) -> (r: Result<
        (ContractResponse, ContractEvent),
        FactoryError,
    >)
        ensures
            announces(
                r,
                old(self)@.admin_only(
                    caller,
                    Notice::CodeIdUpdatedSuccessfully { updated_by: caller, new_code_id },
                ),
            ),
            final(self)@ == old(self)@.after_update_code_id(caller, new_code_id),
    {
        if self.is_admin(caller) {
            self.state.code_id = new_code_id;
            Ok(
                (
                    ContractResponse::CodeIdUpdatedSuccessfully { updated_by: caller, new_code_id },
                    ContractEvent::CodeIdUpdatedSuccessfully { updated_by: caller, new_code_id },
                ),
            )
        } else {
            Err(FactoryError::Unauthorized)
        }
    }

    /// `caller`, an admin, makes `admin_actor_id` an admin too.
    pub fn add_admin_to_factory(&mut self, caller: ActorId, admin_actor_id: ActorId) -> (r: Result<
        (ContractResponse, ContractEvent),
        FactoryError,
    >)
        ensures
            announces(
                r,
                old(self)@.admin_only(
                    caller,
                    Notice::AdminAdded { updated_by: caller, admin_actor_id },
                ),
            ),
            final(self)@ == old(self)@.after_add_admin_to_factory(caller, admin_actor_id),
    {
        if self.is_admin(caller) {
            self.state.factory_admin_account.push(admin_actor_id);
            Ok(
                (
                    ContractResponse::AdminAdded { updated_by: caller, admin_actor_id },
                    ContractEvent::AdminAdded { updated_by: caller, admin_actor_id },
                ),
            )
        } else {
            Err(FactoryError::Unauthorized)
        }
    }

    /// `caller`, an admin, removes the ledger `program_for_id` from the
    /// registry: first its address, then its record. Where no owner has a
    /// record of it the call fails, and the address stays removed.
    pub fn remove_registry(&mut self, caller: ActorId, program_for_id: u64) -> (r: Result<
        (ContractResponse, ContractEvent),
        FactoryError,
    >)
        ensures
            announces(r, old(self)@.remove_registry_result(caller, program_for_id)),
            old(self)@.remove_registry_leaves(caller, program_for_id, final(self)@),
            old(self)@.consistent() && r is Ok ==> final(self)@.consistent(),
    {
        if !self.is_admin(caller) {
            return Err(FactoryError::Unauthorized);
        }
        if self.state.id_to_address.outside_remove(program_for_id).is_none() {
            assert(self.state.id_to_address@ =~= old(self).state.id_to_address@);
            return Err(FactoryError::IdNotFoundInAddress);
        }
        let owners = self.state.registry.outside_owners();
        let mut i: usize = 0;
        while i < owners.len()
            invariant
                i <= owners.len(),
                lists_each_once(owners@, old(self)@.registry.dom()),
                old(self)@.is_admin(caller),
                old(self)@.id_to_address.contains_key(program_for_id),
                self@ == old(self)@.without_address(program_for_id),
                forall|j: int|
                    0 <= j < i ==> !holds_id(old(self)@.registry[#[trigger] owners@[j]], program_for_id),
            decreases owners.len() - i,
        {
            let owner = owners[i];
            assert(owners@.contains(owner));
            let found = match self.state.registry.outside_get(owner) {
                Some(records) => position_of(records, program_for_id),
                None => None,
            };
            if let Some(position) = found {
                let records = self.state.registry.outside_entry_or_default(owner);
                records.remove(position);
                proof {
                    assert(records_view(records@) =~= old(self)@.registry[owner].remove(
                        position as int,
                    ));
                }
                proof {
                    assert(first_at(old(self)@.registry[owner], program_for_id, position as int));
                    assert(holds_id(old(self)@.registry[owner], program_for_id));
                    assert(old(self)@.some_owner_holds(program_for_id));
                    assert(self@.registry =~= old(self)@.registry.insert(
                        owner,
                        old(self)@.registry[owner].remove(position as int),
                    ));
                    if old(self)@.consistent() {
                        law_removal_keeps_consistent(old(self)@, caller, program_for_id, self@);
                    }
                }
                return Ok(
                    (
                        ContractResponse::RegistryRemoved { removed_by: caller, program_for_id },
                        ContractEvent::RegistryRemoved { removed_by: caller, program_for_id },
                    ),
                );
            }
            i += 1;
        }
        proof {
            assert forall|owner: ActorId| old(self)@.registry.contains_key(owner) implies !holds_id(
                #[trigger] old(self)@.registry[owner],
                program_for_id,
            ) by {
                assert(owners@.contains(owner));
                let j = choose|j: int| 0 <= j < owners@.len() && owners@[j] == owner;
                assert(!holds_id(old(self)@.registry[owners@[j]], program_for_id));
            }
        }
        Err(FactoryError::IdNotFound)
    }

    /// The program that creates pools.
    pub fn pool_factory_address(&self) -> (r: ActorId)
        ensures
            r == self@.pool_factory_address,
    {
        self.state.pool_factory_address
    }

    /// The id given out last.
    pub fn number(&self) -> (r: u64)
        ensures
            r == self@.number,
    {
        self.state.number
    }

    /// The code that new ledgers are instantiated from.
    pub fn code_id(&self) -> (r: CodeId)
        ensures
            r == self@.code_id,
    {
        self.state.code_id
    }

    /// The admins, in the order in which they were added.
    pub fn admins(&self) -> (r: Vec<ActorId>)
        ensures
            r@ == self@.admins,
    {
        copy_accounts(&self.state.factory_admin_account)
    }

    /// The gas that a new ledger is given.
    pub fn gas_for_program(&self) -> (r: u64)
        ensures
            r == self@.gas_for_program,
    {
        self.state.gas_for_program
    }

    /// The address of every deployed ledger with its id, each once.
    pub fn id_to_address(&self) -> (r: Vec<(u64, ActorId)>)
        ensures
            lists_map(r@, self@.id_to_address),
    {
        self.state.id_to_address.outside_entries()
    }

    /// The records of every owner, each owner once.
    pub fn registry(&self) -> (r: Vec<(ActorId, Vec<(u64, VftInitConfig)>)>)
        ensures
            lists_registry(r@, self@.registry),
    {
        list_registry(&self.state.registry)
    }
}

/// The deployed factory: the owner of its state, which hands out the service
/// over it.
pub struct Program {
    service: Service,
}

impl View for Program {
    type V = FactoryView;

    closed spec fn view(&self) -> FactoryView {
        self.service@
    }
}

impl Program {
    /// The factory that `config` describes.
    pub fn new(config: InitConfigFactory) -> (r: Program)
        ensures
            r@ == created_from(config),
            r@.consistent(),
            r@.whitelist_in_step(),
    {
        Program { service: Service::new(State::new(config)) }
    }

    /// The service over the factory's state. What is done through it is done
    /// to the factory.
    pub fn service(&mut self) -> (r: &mut Service)
        ensures
            r@ == old(self)@,
            final(self)@ == final(r)@,
    {
        &mut self.service
    }
}

} // verus!
