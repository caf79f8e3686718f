//! What the factory answers to its caller, what it emits, and what it refuses
//! with.

use vstd::prelude::*;
use crate::primitives::{ActorId, CodeId};
use crate::vft_factory::config::{InitConfigView, VftInitConfig};

verus! {

/// What an answer or an event says: the view of both.
pub enum Notice {
    ProgramCreated { id: u64, address: ActorId, init_config: InitConfigView },
    GasUpdatedSuccessfully { updated_by: ActorId, new_gas_amount: u64 },
    CodeIdUpdatedSuccessfully { updated_by: ActorId, new_code_id: CodeId },
    AdminAdded { updated_by: ActorId, admin_actor_id: ActorId },
    RegistryRemoved { removed_by: ActorId, program_for_id: u64 },
    PoolCreated { token_a: ActorId, token_b: ActorId, pair: ActorId },
    PoolFactoryAddressUpdated { updated_by: ActorId, new_pool_factory_address: ActorId },
}

/// What the factory emits for the outside world to see.
#[derive(Debug, PartialEq, Eq)]
pub enum ContractEvent {
    ProgramCreated { id: u64, address: ActorId, init_config: VftInitConfig },
    GasUpdatedSuccessfully { updated_by: ActorId, new_gas_amount: u64 },
    CodeIdUpdatedSuccessfully { updated_by: ActorId, new_code_id: CodeId },
    AdminAdded { updated_by: ActorId, admin_actor_id: ActorId },
    RegistryRemoved { removed_by: ActorId, program_for_id: u64 },
    PoolCreated { token_a: ActorId, token_b: ActorId, pair: ActorId },
    PoolFactoryAddressUpdated { updated_by: ActorId, new_pool_factory_address: ActorId },
}

impl View for ContractEvent {
    type V = Notice;

    open spec fn view(&self) -> Notice {
        match *self {
            ContractEvent::ProgramCreated { id, address, init_config } => Notice::ProgramCreated {
                id,
                address,
                init_config: init_config@,
            },
            ContractEvent::GasUpdatedSuccessfully { updated_by, new_gas_amount } => {
                Notice::GasUpdatedSuccessfully { updated_by, new_gas_amount }
            },
            ContractEvent::CodeIdUpdatedSuccessfully { updated_by, new_code_id } => {
                Notice::CodeIdUpdatedSuccessfully { updated_by, new_code_id }
            },
            ContractEvent::AdminAdded { updated_by, admin_actor_id } => Notice::AdminAdded {
                updated_by,
                admin_actor_id,
            },
            ContractEvent::RegistryRemoved { removed_by, program_for_id } => {
                Notice::RegistryRemoved { removed_by, program_for_id }
            },
            ContractEvent::PoolCreated { token_a, token_b, pair } => Notice::PoolCreated {
                token_a,
                token_b,
                pair,
            },
            ContractEvent::PoolFactoryAddressUpdated { updated_by, new_pool_factory_address } => {
                Notice::PoolFactoryAddressUpdated { updated_by, new_pool_factory_address }
            },
        }
    }
}

/// What the factory answers to the caller of a successful operation.
#[derive(Debug, PartialEq, Eq)]
pub enum ContractResponse {
    ProgramCreated { id: u64, address: ActorId, init_config: VftInitConfig },
    GasUpdatedSuccessfully { updated_by: ActorId, new_gas_amount: u64 },
    CodeIdUpdatedSuccessfully { updated_by: ActorId, new_code_id: CodeId },
    AdminAdded { updated_by: ActorId, admin_actor_id: ActorId },
    RegistryRemoved { removed_by: ActorId, program_for_id: u64 },
}

impl View for ContractResponse {
    type V = Notice;

    open spec fn view(&self) -> Notice {
        match *self {
            ContractResponse::ProgramCreated { id, address, init_config } => {
                Notice::ProgramCreated { id, address, init_config: init_config@ }
            },
            ContractResponse::GasUpdatedSuccessfully { updated_by, new_gas_amount } => {
                Notice::GasUpdatedSuccessfully { updated_by, new_gas_amount }
            },
            ContractResponse::CodeIdUpdatedSuccessfully { updated_by, new_code_id } => {
                Notice::CodeIdUpdatedSuccessfully { updated_by, new_code_id }
            },
            ContractResponse::AdminAdded { updated_by, admin_actor_id } => Notice::AdminAdded {
                updated_by,
                admin_actor_id,
            },
            ContractResponse::RegistryRemoved { removed_by, program_for_id } => {
                Notice::RegistryRemoved { removed_by, program_for_id }
            },
        }
    }
}

/// Why the factory refused or gave up an operation.
#[derive(Debug, Clone, PartialEq, Eq)]
pub enum FactoryError {
    ProgramInitializationFailed,
    /// The ledger could not be instantiated; with what the host said.
    ProgramInitializationFailedWithContext(String),
    /// The caller is no admin of the factory.
    Unauthorized,
    /// The token is registered already.
    UnexpectedFTEvent,
    MessageSendError,
    NotFound,
    /// No address is recorded under the id.
    IdNotFoundInAddress,
    /// No owner has a record of the id.
    IdNotFound,
    /// The token did not answer; with what the host said.
    VftNotFound { error: String, vft_address: ActorId },
    ErrorWhileCreatingMessageForVft(String),
    ErrorWhileCreatingPollMessage(String),
    /// The pool factory did not create the pair; with what the host said.
    ErrorWhileCreatingPool(String),
    ErrorWhileCreatingGetPairMessage(String),
    /// The pool factory did not name the pair; with what the host said.
    ErrorWhileGettingPair(String),
    /// The pairing token is not on the whitelist.
    TokensIsNotRegistered(ActorId),
    /// No pairing token was given and the factory has no default.
    DefaultRegisteredTokenIsNotSet,
    /// The call did not carry exactly one unit of native value.
    MustAttachOneVara,
    ErrorWhileCreatingMintMessage(String),
    /// The new ledger did not mint; with what the host said.
    ErrorWhileMinting(String),
}

/// An operation's outcome says `expected`: on success the answer and the event
/// both stand for the expected notice, on refusal the error is the expected
/// one.
pub open spec fn announces(
    outcome: Result<(ContractResponse, ContractEvent), FactoryError>,
    expected: Result<Notice, FactoryError>,
) -> bool {
    match outcome {
        Ok((response, event)) => expected == Ok::<Notice, FactoryError>(response@) && event@
            == response@,
        Err(e) => expected == Err::<Notice, FactoryError>(e),
    }
}

} // verus!
