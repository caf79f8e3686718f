//! The multi-step operations of the factory.
//!
//! An operation that talks to other programs is a chain of transitions. The
//! first one, a method of [`Service`], names the first request and returns the
//! state in which the operation waits for the reply. The host issues the
//! request, awaits the reply and hands what came of it, a [`Reply`], to
//! `resume` of that state, which names the next request and the next state, or
//! ends the operation. A step fails where the request could not be sent and
//! where no usable reply came; either way it ends the operation at once with
//! the error of that step: no state has a transition after a failure, so
//! nothing more is sent, and what other programs did before stays done.

use vstd::prelude::*;
use crate::primitives::{ActorId, CodeId, U256};
use crate::vft_factory::config::{InitConfigView, VftInitConfig, copy_accounts, records_view};
use crate::vft_factory::events::{ContractEvent, ContractResponse, FactoryError, Notice, announces};
use crate::vft_factory::laws::law_program_created_keeps_consistent;
use crate::vft_factory::registry::{FactoryView, next_number};
use crate::vft_factory::service::Service;
use crate::vft_factory::wire::{
    encoded_account, encoded_accounts, encoded_amount, encoded_text, frame, frame_constructor,
    join, list_fits, list_is_short, outside_encode_account, outside_encode_accounts,
    outside_encode_amount, outside_encode_text, text_fits, text_is_short,
};

verus! {

/// What every request deposits for its reply.
pub const REPLY_DEPOSIT: u64 = 10_000_000_000;

/// The native value that a pool creation must carry: one unit.
pub const ONE_VARA: u128 = 1_000_000_000_000;

/// What came of a request, as the host saw it.
#[derive(Debug, Clone, PartialEq, Eq)]
pub enum Reply<T> {
    /// The request could not be sent; with what the host said.
    NotSent(String),
    /// The request was sent, and no reply came that can be used: the other
    /// program failed, or its answer could not be read; with what the host
    /// said.
    Failed(String),
    /// The answer of the other program.
    Arrived(T),
}

impl<T> Reply<T> {
    /// The answer, or what the host said of the failure: a request that was
    /// not sent and a reply that failed are one failure of the step.
    pub open spec fn outcome(self) -> Result<T, String> {
        match self {
            Reply::NotSent(message) => Err(message),
            Reply::Failed(message) => Err(message),
            Reply::Arrived(answer) => Ok(answer),
        }
    }

    /// The answer, or what the host said of the failure.
    pub fn into_outcome(self) -> (r: Result<T, String>)
        ensures
            r == self.outcome(),
    {
        match self {
            Reply::NotSent(message) => Err(message),
            Reply::Failed(message) => Err(message),
            Reply::Arrived(answer) => Ok(answer),
        }
    }
}

/// A request to another program: a method of one of its services, with its
/// arguments.
#[derive(Debug, Clone, Copy, PartialEq, Eq)]
pub enum Request {
    /// `Name` of the service `Vft`: a query without effect, to see that the
    /// token answers.
    VftName,
    /// `Mint` of the service `Vft`.
    VftMint { to: ActorId, value: U256 },
    /// `CreatePair` of the service `Factory`.
    CreatePair { token_a: ActorId, token_b: ActorId },
    /// `GetPair` of the service `Factory`.
    GetPair { token_a: ActorId, token_b: ActorId },
}

impl Request {
    /// The name of the service that the request goes to.
    pub open spec fn service_name(self) -> Seq<char> {
        match self {
            Request::VftName => "Vft"@,
            Request::VftMint { .. } => "Vft"@,
            Request::CreatePair { .. } => "Factory"@,
            Request::GetPair { .. } => "Factory"@,
        }
    }

    /// The name of the method that the request invokes.
    pub open spec fn method_name(self) -> Seq<char> {
        match self {
            Request::VftName => "Name"@,
            Request::VftMint { .. } => "Mint"@,
            Request::CreatePair { .. } => "CreatePair"@,
            Request::GetPair { .. } => "GetPair"@,
        }
    }

    /// The bytes of the request's arguments, one after the other.
    pub open spec fn arguments(self) -> Seq<u8> {
        match self {
            Request::VftName => Seq::empty(),
            Request::VftMint { to, value } => encoded_account(to) + encoded_amount(value),
            Request::CreatePair { token_a, token_b } => encoded_account(token_a) + encoded_account(
                token_b,
            ),
            Request::GetPair { token_a, token_b } => encoded_account(token_a) + encoded_account(
                token_b,
            ),
        }
    }

    /// The bytes of the request: the service's name, the method's name, the
    /// arguments.
    pub open spec fn payload_bytes(self) -> Seq<u8> {
        encoded_text(self.service_name()) + encoded_text(self.method_name()) + self.arguments()
    }

    /// The name of the service that the request goes to.
    pub fn service(&self) -> (r: &'static str)
        ensures
            r@ == self.service_name(),
    {
        match self {
            Request::VftName => "Vft",
            Request::VftMint { .. } => "Vft",
            Request::CreatePair { .. } => "Factory",
            Request::GetPair { .. } => "Factory",
        }
    }

    /// The name of the method that the request invokes.
    pub fn method(&self) -> (r: &'static str)
        ensures
            r@ == self.method_name(),
    {
        match self {
            Request::VftName => "Name",
            Request::VftMint { .. } => "Mint",
            Request::CreatePair { .. } => "CreatePair",
            Request::GetPair { .. } => "GetPair",
        }
    }
}

impl Request {
    /// The bytes to send: the service's name, the method's name, the
    /// arguments.
    pub fn payload(&self) -> (r: Vec<u8>)
        ensures
            r@ == self.payload_bytes(),
    {
        let arguments = match *self {
            Request::VftName => Vec::new(),
            Request::VftMint { to, value } => join(
                outside_encode_account(to),
                outside_encode_amount(value),
            ),
            Request::CreatePair { token_a, token_b } => join(
                outside_encode_account(token_a),
                outside_encode_account(token_b),
            ),
            Request::GetPair { token_a, token_b } => join(
                outside_encode_account(token_a),
                outside_encode_account(token_b),
            ),
        };
        let service = self.service();
        let method = self.method();
        proof {
            reveal_strlit("Vft");
            reveal_strlit("Factory");
            reveal_strlit("Name");
            reveal_strlit("Mint");
            reveal_strlit("CreatePair");
            reveal_strlit("GetPair");
            vstd::utf8::is_ascii_chars_encode_utf8(service@);
            vstd::utf8::is_ascii_chars_encode_utf8(method@);
        }
        frame(outside_encode_text(service), outside_encode_text(method), arguments)
    }
}

/// A message for the host to send, and to await the reply of.
#[derive(Debug, Clone, Copy, PartialEq, Eq)]
pub struct Outbound {
    pub destination: ActorId,
    pub request: Request,
    /// The native value that goes with the message.
    pub value: u128,
    pub reply_deposit: u64,
}

/// The query that shows whether `token` answers.
pub open spec fn probe_of(token: ActorId) -> Outbound {
    Outbound { destination: token, request: Request::VftName, value: 0, reply_deposit: REPLY_DEPOSIT }
}

/// A ledger for the host to instantiate, and to await the reply of.
#[derive(Debug, PartialEq, Eq)]
pub struct Spawn {
    pub code_id: CodeId,
    pub name: String,
    pub symbol: String,
    pub decimals: u8,
    pub admins: Vec<ActorId>,
    pub gas_limit: u64,
    pub value: u128,
    pub reply_deposit: u64,
}

/// What a [`Spawn`] stands for.
pub struct SpawnView {
    pub code_id: CodeId,
    pub name: Seq<char>,
    pub symbol: Seq<char>,
    pub decimals: u8,
    pub admins: Seq<ActorId>,
    pub gas_limit: u64,
    pub value: u128,
    pub reply_deposit: u64,
}

impl View for Spawn {
    type V = SpawnView;

    open spec fn view(&self) -> SpawnView {
        SpawnView {
            code_id: self.code_id,
            name: self.name@,
            symbol: self.symbol@,
            decimals: self.decimals,
            admins: self.admins@,
            gas_limit: self.gas_limit,
            value: self.value,
            reply_deposit: self.reply_deposit,
        }
    }
}

impl SpawnView {
    /// The codec can write the name, the symbol and the list of admins: none
    /// is longer than 2^32 - 1.
    pub open spec fn fits(self) -> bool {
        text_fits(self.name) && text_fits(self.symbol) && list_fits(self.admins)
    }

    /// The bytes that instantiate the ledger: the constructor's name, then the
    /// ledger's name, symbol, decimals and admins.
    pub open spec fn payload_bytes(self) -> Seq<u8> {
        encoded_text("New"@) + encoded_text(self.name) + encoded_text(self.symbol) + seq![
            self.decimals,
        ] + encoded_accounts(self.admins)
    }
}

impl Spawn {
    /// Whether the codec can write the ledger's name, symbol and admins.
    pub fn fits(&self) -> (r: bool)
        ensures
            r == self@.fits(),
    {
        text_is_short(self.name.as_str()) && text_is_short(self.symbol.as_str()) && list_is_short(
            &self.admins,
        )
    }

    /// The bytes to instantiate the ledger with: the constructor's name, then
    /// the ledger's name, symbol, decimals and admins. A name, a symbol or a
    /// list of admins too long for the codec is left out: `fits` tells.
    pub fn payload(&self) -> (r: Vec<u8>)
        requires
            self@.fits(),
        ensures
            r@ == self@.payload_bytes(),
    {
        proof {
            reveal_strlit("New");
            vstd::utf8::is_ascii_chars_encode_utf8("New"@);
        }
        frame_constructor(
            outside_encode_text("New"),
            outside_encode_text(self.name.as_str()),
            outside_encode_text(self.symbol.as_str()),
            self.decimals,
            outside_encode_accounts(&self.admins),
        )
    }
}

/// The instantiation that `create_program` asks for: the ledger that
/// `init_config` describes, with the factory `program_id` as one more admin,
/// from the factory's code and with the factory's gas.
pub open spec fn spawn_of(
    factory: FactoryView,
    program_id: ActorId,
    init_config: InitConfigView,
) -> SpawnView {
    SpawnView {
        code_id: factory.code_id,
        name: init_config.name,
        symbol: init_config.symbol,
        decimals: init_config.decimals,
        admins: init_config.admins.push(program_id),
        gas_limit: factory.gas_for_program,
        value: 0,
        reply_deposit: REPLY_DEPOSIT,
    }
}

/// `send` is the first mint on the new ledger at `address`: `amount` to `to`.
pub open spec fn is_first_mint(send: Outbound, address: ActorId, to: ActorId, amount: u128) -> bool {
    &&& send.destination == address
    &&& send.value == 0
    &&& send.reply_deposit == REPLY_DEPOSIT
    &&& match send.request {
        Request::VftMint { to: receiver, value } => receiver == to && value@ == amount,
        _ => false,
    }
}

/// `create_program` waits for the new ledger's address.
#[derive(Debug, PartialEq, Eq)]
pub struct AwaitingProgram {
    pub caller: ActorId,
    pub init_config: VftInitConfig,
}

/// `create_program` waits for the new ledger's first mint.
#[derive(Debug, PartialEq, Eq)]
pub struct AwaitingMint {
    pub caller: ActorId,
    pub init_config: VftInitConfig,
    pub address: ActorId,
}

impl AwaitingProgram {
    /// The reply to the instantiation. With the new ledger's address the
    /// operation goes on to the first mint; a failure ends it.
    pub fn resume(self, reply: Reply<ActorId>) -> (r: Result<
        (AwaitingMint, Outbound),
        FactoryError,
    >)
        ensures
            match reply.outcome() {
                Ok(address) => match r {
                    Ok((next, send)) => {
                        &&& next.caller == self.caller
                        &&& next.init_config == self.init_config
                        &&& next.address == address
                        &&& is_first_mint(
                            send,
                            address,
                            self.init_config.mint_to,
                            self.init_config.mint_amount,
                        )
                    },
                    Err(_) => false,
                },
                Err(message) => r == Err::<(AwaitingMint, Outbound), FactoryError>(
                    FactoryError::ProgramInitializationFailedWithContext(message),
                ),
            },
    {
        match reply.into_outcome() {
            Ok(address) => {
                let send = Outbound {
                    destination: address,
                    request: Request::VftMint {
                        to: self.init_config.mint_to,
                        value: U256::from_u128(self.init_config.mint_amount),
                    },
                    value: 0,
                    reply_deposit: REPLY_DEPOSIT,
                };
                Ok((AwaitingMint { caller: self.caller, init_config: self.init_config, address }, send))
            },
            Err(message) => Err(FactoryError::ProgramInitializationFailedWithContext(message)),
        }
    }
}

impl AwaitingMint {
    /// The reply to the first mint. With a success the ledger is recorded
    /// under the next id and for its owner; with a failure nothing is
    /// recorded, and the ledger that was instantiated stays where it is.
    pub fn resume(self, service: &mut Service, reply: Reply<()>) -> (r: Result<
        (ContractResponse, ContractEvent),
        FactoryError,
    >)
        ensures
            match reply.outcome() {
                Ok(_) => {
                    &&& announces(
                        r,
                        Ok(
                            Notice::ProgramCreated {
                                id: next_number(old(service)@.number),
                                address: self.address,
                                init_config: self.init_config@,
                            },
                        ),
                    )
                    &&& final(service)@ == old(service)@.after_program_created(
                        self.caller,
                        self.address,
                        self.init_config@,
                    )
                },
                Err(message) => {
                    &&& r == Err::<(ContractResponse, ContractEvent), FactoryError>(
                        FactoryError::ErrorWhileMinting(message),
                    )
                    &&& final(service)@ == old(service)@
                },
            },
            old(service)@.consistent() && old(service)@.number < u64::MAX
                ==> final(service)@.consistent(),
    {
        proof {
            if service@.consistent() && service@.number < u64::MAX {
                law_program_created_keeps_consistent(
                    service@,
                    self.caller,
                    self.address,
                    self.init_config@,
                );
            }
        }
        match reply.into_outcome() {
            Ok(_) => {
                let number = service.state.number.saturating_add(1);
                service.state.number = number;
                service.state.id_to_address.outside_insert(number, self.address);
                let records = service.state.registry.outside_entry_or_default(self.caller);
                let ghost before = records@;
                records.push((number, self.init_config.clone()));
                proof {
                    assert(records_view(records@) =~= records_view(before).push(
                        (number, self.init_config@),
                    ));
                }
                let event = ContractEvent::ProgramCreated {
                    id: number,
                    address: self.address,
                    init_config: self.init_config.clone(),
                };
                Ok(
                    (
                        ContractResponse::ProgramCreated {
                            id: number,
                            address: self.address,
                            init_config: self.init_config,
                        },
                        event,
                    ),
                )
            },
            Err(message) => Err(FactoryError::ErrorWhileMinting(message)),
        }
    }
}

/// The pool that an operation is about: its two tokens, and the program that
/// creates it, as the factory named it when the operation began.
#[derive(Debug, Clone, Copy, PartialEq, Eq)]
pub struct PoolPlan {
    pub token_a: ActorId,
    pub token_b: ActorId,
    pub pool_factory_address: ActorId,
}

/// The pool creation waits for the first token's answer.
#[derive(Debug, PartialEq, Eq)]
pub struct AwaitingTokenA {
    pub plan: PoolPlan,
}

/// The pool creation waits for the second token's answer.
#[derive(Debug, PartialEq, Eq)]
pub struct AwaitingTokenB {
    pub plan: PoolPlan,
}

/// The pool creation waits for the pool factory to create the pair.
#[derive(Debug, PartialEq, Eq)]
pub struct AwaitingPair {
    pub plan: PoolPlan,
}

/// The pool creation waits for the pool factory to name the pair.
#[derive(Debug, PartialEq, Eq)]
pub struct AwaitingPairAddress {
    pub plan: PoolPlan,
}

/// How a pool creation for `token_a` and `token_b` begins: refused unless the
/// call carries exactly one unit of native value, else with the query to the
/// first token.
pub open spec fn pool_creation_begins(
    factory: FactoryView,
    attached_value: u128,
    token_a: ActorId,
    token_b: ActorId,
) -> Result<(AwaitingTokenA, Outbound), FactoryError> {
    if attached_value != ONE_VARA {
        Err(FactoryError::MustAttachOneVara)
    } else {
        Ok(
            (
                AwaitingTokenA {
                    plan: PoolPlan {
                        token_a,
                        token_b,
                        pool_factory_address: factory.pool_factory_address,
                    },
                },
                probe_of(token_a),
            ),
        )
    }
}

/// The token to pair with: the one the caller names, else the factory's
/// default; refused where there is neither, or where it is not on the
/// whitelist.
pub open spec fn pairing_token(factory: FactoryView, registered_token: Option<ActorId>) -> Result<
    ActorId,
    FactoryError,
> {
    let named = match registered_token {
        Some(token) => Some(token),
        None => factory.default_registered_token,
    };
    match named {
        None => Err(FactoryError::DefaultRegisteredTokenIsNotSet),
        Some(token) => if factory.registered_tokens.contains_key(token) {
            Ok(token)
        } else {
            Err(FactoryError::TokensIsNotRegistered(token))
        },
    }
}

/// How a pool creation with a whitelisted token begins: the pairing token is
/// settled first, and then the operation begins as `create_pool` for it and
/// `token`.
pub open spec fn pool_with_registered_token_begins(
    factory: FactoryView,
    attached_value: u128,
    token: ActorId,
    registered_token: Option<ActorId>,
) -> Result<(AwaitingTokenA, Outbound), FactoryError> {
    match pairing_token(factory, registered_token) {
        Ok(resolved) => pool_creation_begins(factory, attached_value, resolved, token),
        Err(e) => Err(e),
    }
}

impl Service {
    /// Deploys a ledger for `caller`, first step: the instantiation to ask
    /// for. `program_id` is the factory's own address, which becomes an admin
    /// of the new ledger.
    pub fn create_program(&self, caller: ActorId, program_id: ActorId, init_config: VftInitConfig) -> (r:
        (AwaitingProgram, Spawn))
        ensures
            r.0.caller == caller,
            r.0.init_config == init_config,
            r.1@ == spawn_of(self@, program_id, init_config@),
    {
        let mut admins = copy_accounts(&init_config.admins);
        admins.push(program_id);
        let spawn = Spawn {
            code_id: self.state.code_id,
            name: init_config.name.clone(),
            symbol: init_config.symbol.clone(),
            decimals: init_config.decimals,
            admins,
            gas_limit: self.state.gas_for_program,
            value: 0,
            reply_deposit: REPLY_DEPOSIT,
        };
        (AwaitingProgram { caller, init_config }, spawn)
    }

    /// Creates a pool between `token_a` and `token_b`, first step.
    /// `attached_value` is the native value that the call carries.
    pub fn create_pool(&self, attached_value: u128, token_a: ActorId, token_b: ActorId) -> (r: Result<
        (AwaitingTokenA, Outbound),
        FactoryError,
    >)
        ensures
            r == pool_creation_begins(self@, attached_value, token_a, token_b),
    {
        if attached_value != ONE_VARA {
            return Err(FactoryError::MustAttachOneVara);
        }
        let plan = PoolPlan {
            token_a,
            token_b,
            pool_factory_address: self.state.pool_factory_address,
        };
        Ok(
            (
                AwaitingTokenA { plan },
                Outbound {
                    destination: token_a,
                    request: Request::VftName,
                    value: 0,
                    reply_deposit: REPLY_DEPOSIT,
                },
            ),
        )
    }

    /// Creates a pool between a whitelisted token and `token`, first step. The
    /// whitelisted token is `registered_token`, or the factory's default where
    /// the caller names none; it is settled before anything else, and then the
    /// operation is `create_pool` for it and `token`.
    pub fn create_pool_with_registered_token(
        &self,
        attached_value: u128,
        token: ActorId,
        registered_token: Option<ActorId>,
    ) -> (r: Result<(AwaitingTokenA, Outbound), FactoryError>)
        ensures
            r == pool_with_registered_token_begins(self@, attached_value, token, registered_token),
    {
        let resolved = match registered_token {
            Some(named) => named,
            None => match self.state.default_registered_token {
                Some(default) => default,
                None => { return Err(FactoryError::DefaultRegisteredTokenIsNotSet); },
            },
        };
        if !self.state.registered_tokens.outside_contains_key(resolved) {
            return Err(FactoryError::TokensIsNotRegistered(resolved));
        }
        self.create_pool(attached_value, resolved, token)
    }
}

impl PoolPlan {
    /// The query to the first token.
    pub open spec fn first_probe(self) -> Outbound {
        probe_of(self.token_a)
    }

    /// The query to the second token.
    pub open spec fn second_probe(self) -> Outbound {
        probe_of(self.token_b)
    }

    /// The request that has the pool factory create the pair. It carries the
    /// native value of the call.
    pub open spec fn creation(self) -> Outbound {
        Outbound {
            destination: self.pool_factory_address,
            request: Request::CreatePair { token_a: self.token_a, token_b: self.token_b },
            value: ONE_VARA,
            reply_deposit: REPLY_DEPOSIT,
        }
    }

    /// The request that has the pool factory name the pair.
    pub open spec fn lookup(self) -> Outbound {
        Outbound {
            destination: self.pool_factory_address,
            request: Request::GetPair { token_a: self.token_a, token_b: self.token_b },
            value: 0,
            reply_deposit: REPLY_DEPOSIT,
        }
    }
}

impl AwaitingTokenA {
    /// What the first token's answer leads to.
    pub open spec fn resumed(self, reply: Result<(), String>) -> Result<
        (AwaitingTokenB, Outbound),
        FactoryError,
    > {
        match reply {
            Ok(_) => Ok((AwaitingTokenB { plan: self.plan }, self.plan.second_probe())),
            Err(message) => Err(
                FactoryError::VftNotFound { error: message, vft_address: self.plan.token_a },
            ),
        }
    }

    /// The answer of the first token. With an answer the second token is
    /// asked; without one the operation ends: the token was not found.
    pub fn resume(self, reply: Reply<()>) -> (r: Result<
        (AwaitingTokenB, Outbound),
        FactoryError,
    >)
        ensures
            r == self.resumed(reply.outcome()),
    {
        match reply.into_outcome() {
            Ok(_) => Ok(
                (
                    AwaitingTokenB { plan: self.plan },
                    Outbound {
                        destination: self.plan.token_b,
                        request: Request::VftName,
                        value: 0,
                        reply_deposit: REPLY_DEPOSIT,
                    },
                ),
            ),
            Err(message) => Err(
                FactoryError::VftNotFound { error: message, vft_address: self.plan.token_a },
            ),
        }
    }
}

impl AwaitingTokenB {
    /// What the second token's answer leads to.
    pub open spec fn resumed(self, reply: Result<(), String>) -> Result<
        (AwaitingPair, Outbound),
        FactoryError,
    > {
        match reply {
            Ok(_) => Ok((AwaitingPair { plan: self.plan }, self.plan.creation())),
            Err(message) => Err(
                FactoryError::VftNotFound { error: message, vft_address: self.plan.token_b },
            ),
        }
    }

    /// The answer of the second token. With an answer the pool factory is
    /// asked to create the pair, and gets the native value of the call;
    /// without one the operation ends: the token was not found.
    pub fn resume(self, reply: Reply<()>) -> (r: Result<
        (AwaitingPair, Outbound),
        FactoryError,
    >)
        ensures
            r == self.resumed(reply.outcome()),
    {
        match reply.into_outcome() {
            Ok(_) => Ok(
                (
                    AwaitingPair { plan: self.plan },
                    Outbound {
                        destination: self.plan.pool_factory_address,
                        request: Request::CreatePair {
                            token_a: self.plan.token_a,
                            token_b: self.plan.token_b,
                        },
                        value: ONE_VARA,
                        reply_deposit: REPLY_DEPOSIT,
                    },
                ),
            ),
            Err(message) => Err(
                FactoryError::VftNotFound { error: message, vft_address: self.plan.token_b },
            ),
        }
    }
}

impl AwaitingPair {
    /// What the pool factory's reply to the creation leads to.
    pub open spec fn resumed(self, reply: Result<(), String>) -> Result<
        (AwaitingPairAddress, Outbound),
        FactoryError,
    > {
        match reply {
            Ok(_) => Ok((AwaitingPairAddress { plan: self.plan }, self.plan.lookup())),
            Err(message) => Err(FactoryError::ErrorWhileCreatingPool(message)),
        }
    }

    /// The pool factory's reply to the creation. With a success it is asked
    /// for the pair's address; a failure ends the operation.
    pub fn resume(self, reply: Reply<()>) -> (r: Result<
        (AwaitingPairAddress, Outbound),
        FactoryError,
    >)
        ensures
            r == self.resumed(reply.outcome()),
    {
        match reply.into_outcome() {
            Ok(_) => Ok(
                (
                    AwaitingPairAddress { plan: self.plan },
                    Outbound {
                        destination: self.plan.pool_factory_address,
                        request: Request::GetPair {
                            token_a: self.plan.token_a,
                            token_b: self.plan.token_b,
                        },
                        value: 0,
                        reply_deposit: REPLY_DEPOSIT,
                    },
                ),
            ),
            Err(message) => Err(FactoryError::ErrorWhileCreatingPool(message)),
        }
    }
}

impl AwaitingPairAddress {
    /// What the pool factory's reply to the lookup leads to: the pair's
    /// address as the answer, with what the event says.
    pub open spec fn resumed(self, reply: Result<ActorId, String>) -> Result<
        (ActorId, Notice),
        FactoryError,
    > {
        match reply {
            Ok(pair) => Ok(
                (
                    pair,
                    Notice::PoolCreated {
                        token_a: self.plan.token_a,
                        token_b: self.plan.token_b,
                        pair,
                    },
                ),
            ),
            Err(message) => Err(FactoryError::ErrorWhileGettingPair(message)),
        }
    }

    /// The pool factory's reply to the lookup. With the pair's address the
    /// operation ends well: the address is the answer, and `PoolCreated` is
    /// the event to emit. A failure ends the operation, though the pair may
    /// exist.
    pub fn resume(self, reply: Reply<ActorId>) -> (r: Result<
        (ActorId, ContractEvent),
        FactoryError,
    >)
        ensures
            match r {
                Ok((answer, event)) => self.resumed(reply.outcome()) == Ok::<
                    (ActorId, Notice),
                    FactoryError,
                >((answer, event@)),
                Err(e) => self.resumed(reply.outcome()) == Err::<(ActorId, Notice), FactoryError>(
                    e,
                ),
            },
    {
        match reply.into_outcome() {
            Ok(pair) => Ok(
                (
                    pair,
                    ContractEvent::PoolCreated {
                        token_a: self.plan.token_a,
                        token_b: self.plan.token_b,
                        pair,
                    },
                ),
            ),
            Err(message) => Err(FactoryError::ErrorWhileGettingPair(message)),
        }
    }
}

} // verus!
