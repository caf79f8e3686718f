use sails_rs::Encode;
use vft_contracts::primitives::{ActorId, CodeId, U256};
use vft_contracts::vft::ledger::Role;
use vft_contracts::vft::service::{Service as Ledger, State as LedgerState};
use vft_contracts::vft_factory::config::{DexToken, InitConfigFactory, VftInitConfig};
use vft_contracts::vft_factory::events::{ContractEvent, ContractResponse, FactoryError};
use vft_contracts::vft_factory::service::{IoState, Program, Service, State};
use vft_contracts::vft_factory::storage::Registry;
use vft_contracts::vft_factory::wire::{frame, frame_constructor, join};
use vft_contracts::vft_factory::workflow::{
    AwaitingMint, AwaitingPair, AwaitingPairAddress, AwaitingTokenA, AwaitingTokenB, Outbound,
    PoolPlan, Reply, Request, Spawn, ONE_VARA, REPLY_DEPOSIT,
};

fn actor(n: u8) -> ActorId {
    ActorId::new([n; 32])
}

const ADMIN: u8 = 1;
const POOLS: u8 = 50;
const SELF: u8 = 99;

fn token(name: &str, symbol: &str, address: ActorId) -> DexToken {
    DexToken { name: name.to_string(), symbol: symbol.to_string(), address }
}

fn config(tokens: Vec<DexToken>, default: Option<ActorId>) -> InitConfigFactory {
    InitConfigFactory {
        code_id: CodeId::new([7; 32]),
        factory_admin_account: vec![actor(ADMIN)],
        gas_for_program: 5_000_000,
        registered_tokens: tokens,
        pool_factory_address: actor(POOLS),
        default_registered_token: default,
    }
}

fn factory() -> Service {
    Service::new(State::new(config(vec![], None)))
}

fn init_config(name: &str) -> VftInitConfig {
    VftInitConfig {
        name: name.to_string(),
        symbol: "SYM".to_string(),
        decimals: 18,
        admins: vec![actor(10)],
        mint_amount: 1_000_000,
        mint_to: actor(11),
    }
}

fn deploy(svc: &mut Service, caller: ActorId, name: &str, address: ActorId) -> ContractResponse {
    let (waiting, _) = svc.create_program(caller, actor(SELF), init_config(name));
    let (waiting, _) = waiting.resume(Reply::Arrived(address)).unwrap();
    waiting.resume(svc, Reply::Arrived(())).unwrap().0
}

#[test]
fn new_factory_holds_its_configuration() {
    let svc = factory();
    assert_eq!(svc.number(), 0);
    assert_eq!(svc.code_id(), CodeId::new([7; 32]));
    assert_eq!(svc.admins(), vec![actor(ADMIN)]);
    assert_eq!(svc.gas_for_program(), 5_000_000);
    assert_eq!(svc.pool_factory_address(), actor(POOLS));
    assert!(svc.id_to_address().is_empty());
    assert!(svc.registry().is_empty());
    assert!(svc.is_admin(actor(ADMIN)));
    assert!(!svc.is_admin(actor(2)));
    assert_ne!(CodeId::new([7; 32]), CodeId::zero());
    assert_eq!(CodeId::default().into_bytes(), [0u8; 32]);
}

#[test]
fn no_default_token_fails_before_any_request() {
    let svc = factory();
    let y = actor(20);
    assert_eq!(
        svc.create_pool_with_registered_token(ONE_VARA, y, None),
        Err(FactoryError::DefaultRegisteredTokenIsNotSet)
    );
    assert_eq!(
        svc.create_pool_with_registered_token(0, y, None),
        Err(FactoryError::DefaultRegisteredTokenIsNotSet)
    );
}

#[test]
fn pairing_token_must_be_whitelisted() {
    let (x, y, z) = (actor(20), actor(21), actor(22));
    let svc = Service::new(State::new(config(vec![token("X", "X", x)], Some(z))));
    assert_eq!(
        svc.create_pool_with_registered_token(ONE_VARA, y, None),
        Err(FactoryError::TokensIsNotRegistered(z))
    );
    assert_eq!(
        svc.create_pool_with_registered_token(ONE_VARA, y, Some(y)),
        Err(FactoryError::TokensIsNotRegistered(y))
    );
    assert_eq!(
        svc.create_pool_with_registered_token(5, y, Some(x)),
        Err(FactoryError::MustAttachOneVara)
    );
    let (waiting, first) = svc.create_pool_with_registered_token(ONE_VARA, y, Some(x)).unwrap();
    assert_eq!(waiting.plan, PoolPlan { token_a: x, token_b: y, pool_factory_address: actor(POOLS) });
    assert_eq!(
        first,
        Outbound { destination: x, request: Request::VftName, value: 0, reply_deposit: REPLY_DEPOSIT }
    );
}

#[test]
fn default_token_is_used_where_none_is_named() {
    let (x, y) = (actor(20), actor(21));
    let svc = Service::new(State::new(config(vec![token("X", "X", x)], Some(x))));
    let (waiting, first) = svc.create_pool_with_registered_token(ONE_VARA, y, None).unwrap();
    assert_eq!(waiting.plan.token_a, x);
    assert_eq!(waiting.plan.token_b, y);
    assert_eq!(first.destination, x);
}

#[test]
fn create_pool_needs_exactly_one_unit() {
    let svc = factory();
    for value in [0, 1, ONE_VARA - 1, ONE_VARA + 1, u128::MAX] {
        assert_eq!(
            svc.create_pool(value, actor(20), actor(21)),
            Err(FactoryError::MustAttachOneVara)
        );
    }
    assert_eq!(ONE_VARA, 1_000_000_000_000);
    assert_eq!(REPLY_DEPOSIT, 10_000_000_000);
}

#[test]
fn create_pool_runs_four_requests_in_order() {
    let svc = factory();
    let (a, b, pair) = (actor(20), actor(21), actor(22));
    let plan = PoolPlan { token_a: a, token_b: b, pool_factory_address: actor(POOLS) };
    let (waiting, first) = svc.create_pool(ONE_VARA, a, b).unwrap();
    assert_eq!(waiting, AwaitingTokenA { plan });
    assert_eq!(
        first,
        Outbound { destination: a, request: Request::VftName, value: 0, reply_deposit: REPLY_DEPOSIT }
    );
    let (waiting, second) = waiting.resume(Reply::Arrived(())).unwrap();
    assert_eq!(waiting, AwaitingTokenB { plan });
    assert_eq!(
        second,
        Outbound { destination: b, request: Request::VftName, value: 0, reply_deposit: REPLY_DEPOSIT }
    );
    let (waiting, third) = waiting.resume(Reply::Arrived(())).unwrap();
    assert_eq!(waiting, AwaitingPair { plan });
    assert_eq!(
        third,
        Outbound {
            destination: actor(POOLS),
            request: Request::CreatePair { token_a: a, token_b: b },
            value: ONE_VARA,
            reply_deposit: REPLY_DEPOSIT,
        }
    );
    let (waiting, fourth) = waiting.resume(Reply::Arrived(())).unwrap();
    assert_eq!(waiting, AwaitingPairAddress { plan });
    assert_eq!(
        fourth,
        Outbound {
            destination: actor(POOLS),
            request: Request::GetPair { token_a: a, token_b: b },
            value: 0,
            reply_deposit: REPLY_DEPOSIT,
        }
    );
    assert_eq!(
        waiting.resume(Reply::Arrived(pair)),
        Ok((pair, ContractEvent::PoolCreated { token_a: a, token_b: b, pair }))
    );
    assert!(svc.id_to_address().is_empty());
    assert!(svc.registry().is_empty());
    assert_eq!(svc.number(), 0);
}

#[test]
fn create_pool_stops_at_the_step_that_fails() {
    let (a, b) = (actor(20), actor(21));
    let plan = PoolPlan { token_a: a, token_b: b, pool_factory_address: actor(POOLS) };
    let gone = || Reply::Failed("gone".to_string());
    assert_eq!(
        AwaitingTokenA { plan }.resume(gone()),
        Err(FactoryError::VftNotFound { error: "gone".to_string(), vft_address: a })
    );
    assert_eq!(
        AwaitingTokenB { plan }.resume(gone()),
        Err(FactoryError::VftNotFound { error: "gone".to_string(), vft_address: b })
    );
    assert_eq!(
        AwaitingPair { plan }.resume(gone()),
        Err(FactoryError::ErrorWhileCreatingPool("gone".to_string()))
    );
    assert_eq!(
        AwaitingPairAddress { plan }.resume(Reply::Failed("gone".to_string())),
        Err(FactoryError::ErrorWhileGettingPair("gone".to_string()))
    );
}

#[test]
fn requests_name_their_service_and_method() {
    let (a, b) = (actor(1), actor(2));
    let mint = Request::VftMint { to: a, value: U256::from_u128(1) };
    assert_eq!((Request::VftName.service(), Request::VftName.method()), ("Vft", "Name"));
    assert_eq!((mint.service(), mint.method()), ("Vft", "Mint"));
    let create = Request::CreatePair { token_a: a, token_b: b };
    assert_eq!((create.service(), create.method()), ("Factory", "CreatePair"));
    let get = Request::GetPair { token_a: a, token_b: b };
    assert_eq!((get.service(), get.method()), ("Factory", "GetPair"));
}

#[test]
fn create_program_records_the_ledger() {
    let mut svc = factory();
    let (caller, ledger) = (actor(30), actor(40));
    let (waiting, spawn) = svc.create_program(caller, actor(SELF), init_config("One"));
    assert_eq!(
        spawn,
        Spawn {
            code_id: CodeId::new([7; 32]),
            name: "One".to_string(),
            symbol: "SYM".to_string(),
            decimals: 18,
            admins: vec![actor(10), actor(SELF)],
            gas_limit: 5_000_000,
            value: 0,
            reply_deposit: REPLY_DEPOSIT,
        }
    );
    assert_eq!(waiting.caller, caller);
    assert_eq!(waiting.init_config, init_config("One"));
    let (waiting, send) = waiting.resume(Reply::Arrived(ledger)).unwrap();
    assert_eq!(
        waiting,
        AwaitingMint { caller, init_config: init_config("One"), address: ledger }
    );
    assert_eq!(
        send,
        Outbound {
            destination: ledger,
            request: Request::VftMint { to: actor(11), value: U256::from_u128(1_000_000) },
            value: 0,
            reply_deposit: REPLY_DEPOSIT,
        }
    );
    let (response, event) = waiting.resume(&mut svc, Reply::Arrived(())).unwrap();
    assert_eq!(
        response,
        ContractResponse::ProgramCreated { id: 1, address: ledger, init_config: init_config("One") }
    );
    assert_eq!(
        event,
        ContractEvent::ProgramCreated { id: 1, address: ledger, init_config: init_config("One") }
    );
    assert_eq!(svc.number(), 1);
    assert_eq!(svc.id_to_address(), vec![(1, ledger)]);
    assert_eq!(svc.registry(), vec![(caller, vec![(1, init_config("One"))])]);
}

#[test]
fn records_of_one_owner_grow_in_order() {
    let mut svc = factory();
    let (alice, bob) = (actor(30), actor(31));
    deploy(&mut svc, alice, "One", actor(40));
    deploy(&mut svc, bob, "Two", actor(41));
    deploy(&mut svc, alice, "Three", actor(42));
    assert_eq!(svc.number(), 3);
    let mut addresses = svc.id_to_address();
    addresses.sort_by_key(|e| e.0);
    assert_eq!(addresses, vec![(1, actor(40)), (2, actor(41)), (3, actor(42))]);
    let mut registry = svc.registry();
    registry.sort_by_key(|e| e.0.bytes);
    assert_eq!(
        registry,
        vec![
            (alice, vec![(1, init_config("One")), (3, init_config("Three"))]),
            (bob, vec![(2, init_config("Two"))]),
        ]
    );
}

#[test]
fn failed_instantiation_ends_the_operation() {
    let svc = factory();
    let (waiting, _) = svc.create_program(actor(30), actor(SELF), init_config("One"));
    assert_eq!(
        waiting.resume(Reply::Failed("out of gas".to_string())),
        Err(FactoryError::ProgramInitializationFailedWithContext("out of gas".to_string()))
    );
    assert_eq!(svc.number(), 0);
}

#[test]
fn failed_mint_leaves_the_ledger_but_records_nothing() {
    let mut svc = factory();
    let (caller, address) = (actor(30), actor(40));
    let (waiting, spawn) = svc.create_program(caller, actor(SELF), init_config("One"));
    // The host instantiates the ledger that was asked for.
    let mut ledger = Ledger::new(LedgerState::new(
        spawn.name.clone(),
        spawn.symbol.clone(),
        spawn.decimals,
        spawn.admins.clone(),
    ));
    let (waiting, _mint) = waiting.resume(Reply::Arrived(address)).unwrap();
    let outcome = waiting.resume(&mut svc, Reply::Failed("no reply".to_string()));
    assert_eq!(outcome, Err(FactoryError::ErrorWhileMinting("no reply".to_string())));
    assert_eq!(svc.number(), 0);
    assert!(svc.id_to_address().is_empty());
    assert!(svc.registry().is_empty());
    // The ledger is there and answers on its own; the factory is its admin.
    assert_eq!(ledger.name(), "One");
    assert_eq!(ledger.total_supply(), U256::zero());
    assert!(ledger.has_role(actor(SELF), Role::Admin));
    assert!(ledger.has_role(actor(SELF), Role::Minter));
    assert!(ledger.has_role(actor(10), Role::Admin));
    ledger.mint(actor(SELF), actor(11), U256::from_u128(1_000_000)).unwrap();
    assert_eq!(ledger.balance_of(actor(11)), U256::from_u128(1_000_000));
}

#[test]
fn removal_without_a_record_loses_the_address() {
    let mut svc = factory();
    deploy(&mut svc, actor(30), "One", actor(40));
    deploy(&mut svc, actor(31), "Two", actor(41));
    svc.state.registry = Registry::new();
    let outcome = svc.remove_registry(actor(ADMIN), 1);
    assert_eq!(outcome, Err(FactoryError::IdNotFound));
    assert_eq!(svc.id_to_address(), vec![(2, actor(41))]);
    assert!(svc.registry().is_empty());
    assert_eq!(svc.number(), 2);
    assert_eq!(svc.remove_registry(actor(ADMIN), 1), Err(FactoryError::IdNotFoundInAddress));
    assert_eq!(svc.id_to_address(), vec![(2, actor(41))]);
}

#[test]
fn removal_takes_the_address_and_the_record() {
    let mut svc = factory();
    let (alice, bob) = (actor(30), actor(31));
    deploy(&mut svc, alice, "One", actor(40));
    deploy(&mut svc, bob, "Two", actor(41));
    deploy(&mut svc, alice, "Three", actor(42));
    let (response, event) = svc.remove_registry(actor(ADMIN), 1).unwrap();
    assert_eq!(
        response,
        ContractResponse::RegistryRemoved { removed_by: actor(ADMIN), program_for_id: 1 }
    );
    assert_eq!(
        event,
        ContractEvent::RegistryRemoved { removed_by: actor(ADMIN), program_for_id: 1 }
    );
    let mut addresses = svc.id_to_address();
    addresses.sort_by_key(|e| e.0);
    assert_eq!(addresses, vec![(2, actor(41)), (3, actor(42))]);
    let mut registry = svc.registry();
    registry.sort_by_key(|e| e.0.bytes);
    assert_eq!(
        registry,
        vec![(alice, vec![(3, init_config("Three"))]), (bob, vec![(2, init_config("Two"))])]
    );
    svc.remove_registry(actor(ADMIN), 2).unwrap();
    let mut registry = svc.registry();
    registry.sort_by_key(|e| e.0.bytes);
    assert_eq!(registry, vec![(alice, vec![(3, init_config("Three"))]), (bob, vec![])]);
    assert_eq!(svc.number(), 3);
}

#[test]
fn removal_is_for_admins_and_known_ids() {
    let mut svc = factory();
    deploy(&mut svc, actor(30), "One", actor(40));
    assert_eq!(svc.remove_registry(actor(30), 1), Err(FactoryError::Unauthorized));
    assert_eq!(svc.remove_registry(actor(ADMIN), 2), Err(FactoryError::IdNotFoundInAddress));
    assert_eq!(svc.id_to_address(), vec![(1, actor(40))]);
    assert_eq!(svc.registry().len(), 1);
}

#[test]
fn counter_stops_at_the_largest_number() {
    let mut svc = factory();
    svc.state.number = u64::MAX - 1;
    let first = deploy(&mut svc, actor(30), "One", actor(40));
    assert_eq!(
        first,
        ContractResponse::ProgramCreated {
            id: u64::MAX,
            address: actor(40),
            init_config: init_config("One"),
        }
    );
    let second = deploy(&mut svc, actor(30), "Two", actor(41));
    assert_eq!(
        second,
        ContractResponse::ProgramCreated {
            id: u64::MAX,
            address: actor(41),
            init_config: init_config("Two"),
        }
    );
    assert_eq!(svc.number(), u64::MAX);
    assert_eq!(svc.id_to_address(), vec![(u64::MAX, actor(41))]);
    assert_eq!(
        svc.registry(),
        vec![(actor(30), vec![(u64::MAX, init_config("One")), (u64::MAX, init_config("Two"))])]
    );
}

#[test]
fn register_token_refuses_a_known_address() {
    let (x, y) = (actor(20), actor(21));
    let mut svc = Service::new(State::new(config(vec![token("X", "X", x)], None)));
    assert_eq!(
        svc.register_token("Other".to_string(), "O".to_string(), x),
        Err(FactoryError::UnexpectedFTEvent)
    );
    assert_eq!(
        svc.create_pool_with_registered_token(ONE_VARA, x, Some(y)),
        Err(FactoryError::TokensIsNotRegistered(y))
    );
    assert_eq!(svc.register_token("Why".to_string(), "Y".to_string(), y), Ok(()));
    assert!(svc.create_pool_with_registered_token(ONE_VARA, x, Some(y)).is_ok());
    assert_eq!(
        svc.register_token("Why".to_string(), "Y".to_string(), y),
        Err(FactoryError::UnexpectedFTEvent)
    );
    assert_eq!(svc.register_token("Why".to_string(), "Y".to_string(), actor(23)), Ok(()));
}

#[test]
fn administration_is_for_admins() {
    let mut svc = factory();
    let stranger = actor(2);
    assert_eq!(svc.update_gas_for_program(stranger, 1), Err(FactoryError::Unauthorized));
    assert_eq!(svc.update_code_id(stranger, CodeId::zero()), Err(FactoryError::Unauthorized));
    assert_eq!(svc.add_admin_to_factory(stranger, stranger), Err(FactoryError::Unauthorized));
    assert_eq!(svc.set_pool_factory_address(stranger, stranger), Err(FactoryError::Unauthorized));
    assert_eq!(svc.gas_for_program(), 5_000_000);
    assert_eq!(svc.code_id(), CodeId::new([7; 32]));
    assert_eq!(svc.admins(), vec![actor(ADMIN)]);
    assert_eq!(svc.pool_factory_address(), actor(POOLS));
}

#[test]
fn administration_changes_one_field_and_says_so() {
    let mut svc = factory();
    let admin = actor(ADMIN);
    assert_eq!(
        svc.update_gas_for_program(admin, 77),
        Ok((
            ContractResponse::GasUpdatedSuccessfully { updated_by: admin, new_gas_amount: 77 },
            ContractEvent::GasUpdatedSuccessfully { updated_by: admin, new_gas_amount: 77 },
        ))
    );
    assert_eq!(svc.gas_for_program(), 77);
    let code = CodeId::new([9; 32]);
    assert_eq!(
        svc.update_code_id(admin, code),
        Ok((
            ContractResponse::CodeIdUpdatedSuccessfully { updated_by: admin, new_code_id: code },
            ContractEvent::CodeIdUpdatedSuccessfully { updated_by: admin, new_code_id: code },
        ))
    );
    assert_eq!(svc.code_id(), code);
    assert_eq!(
        svc.add_admin_to_factory(admin, actor(2)),
        Ok((
            ContractResponse::AdminAdded { updated_by: admin, admin_actor_id: actor(2) },
            ContractEvent::AdminAdded { updated_by: admin, admin_actor_id: actor(2) },
        ))
    );
    assert_eq!(svc.admins(), vec![admin, actor(2)]);
    assert_eq!(
        svc.set_pool_factory_address(actor(2), actor(51)),
        Ok(ContractEvent::PoolFactoryAddressUpdated {
            updated_by: actor(2),
            new_pool_factory_address: actor(51),
        })
    );
    assert_eq!(svc.pool_factory_address(), actor(51));
    let (waiting, _) = svc.create_pool(ONE_VARA, actor(20), actor(21)).unwrap();
    assert_eq!(waiting.plan.pool_factory_address, actor(51));
    let (_, spawn) = svc.create_program(admin, actor(SELF), init_config("One"));
    assert_eq!(spawn.gas_limit, 77);
    assert_eq!(spawn.code_id, code);
}

#[test]
fn snapshot_lists_the_registry() {
    let mut program = Program::new(config(vec![], None));
    deploy(program.service(), actor(30), "One", actor(40));
    let mut state = State::new(config(vec![token("X", "X", actor(20))], Some(actor(20))));
    state.number = 4;
    let empty = IoState::from(state);
    assert_eq!(
        empty,
        IoState {
            number: 4,
            code_id: CodeId::new([7; 32]),
            factory_admin_account: vec![actor(ADMIN)],
            gas_for_program: 5_000_000,
            id_to_address: vec![],
            registry: vec![],
        }
    );
    assert_eq!(program.service().registry(), vec![(actor(30), vec![(1, init_config("One"))])]);
    assert_eq!(program.service().id_to_address(), vec![(1, actor(40))]);
}

#[test]
fn request_payload_is_service_method_arguments() {
    let (a, b) = (actor(20), actor(21));
    let host = |n: u8| sails_rs::ActorId::new([n; 32]);
    assert_eq!(
        Request::VftName.payload(),
        ["Vft".encode(), "Name".encode(), ().encode()].concat()
    );
    assert_eq!(Request::VftName.payload(), vec![12, b'V', b'f', b't', 16, b'N', b'a', b'm', b'e']);
    assert_eq!(
        Request::CreatePair { token_a: a, token_b: b }.payload(),
        ["Factory".encode(), "CreatePair".encode(), (host(20), host(21)).encode()].concat()
    );
    assert_eq!(
        Request::GetPair { token_a: a, token_b: b }.payload(),
        ["Factory".encode(), "GetPair".encode(), (host(20), host(21)).encode()].concat()
    );
    let get = Request::GetPair { token_a: a, token_b: b }.payload();
    assert_eq!(get.len(), 8 + 8 + 64);
    assert_eq!(get[16..48], [20u8; 32]);
    assert_eq!(get[48..], [21u8; 32]);
}

#[test]
fn mint_payload_carries_the_amount_least_significant_byte_first() {
    let to = actor(11);
    let value = U256 { limbs: [0x0807_0605_0403_0201, 0x100f_0e0d_0c0b_0a09, 0x11, 0xff00_0000_0000_0000] };
    let payload = Request::VftMint { to, value }.payload();
    assert_eq!(
        payload,
        [
            "Vft".encode(),
            "Mint".encode(),
            (sails_rs::ActorId::new([11; 32]), sails_rs::U256(value.limbs)).encode(),
        ]
        .concat()
    );
    let amount = &payload[4 + 5 + 32..];
    let mut expected = [0u8; 32];
    for (i, byte) in expected.iter_mut().enumerate().take(16) {
        *byte = i as u8 + 1;
    }
    expected[16] = 0x11;
    expected[31] = 0xff;
    assert_eq!(amount, expected);
    let million = Request::VftMint { to, value: U256::from_u128(1_000_000) }.payload();
    assert_eq!(
        million,
        ["Vft".encode(), "Mint".encode(), (sails_rs::ActorId::new([11; 32]), sails_rs::U256::from(1_000_000u128)).encode()].concat()
    );
}

#[test]
fn spawn_payload_is_the_constructor_call() {
    let svc = factory();
    let (_, spawn) = svc.create_program(actor(30), actor(SELF), init_config("One"));
    let admins = vec![sails_rs::ActorId::new([10; 32]), sails_rs::ActorId::new([SELF; 32])];
    assert_eq!(
        spawn.payload(),
        ["New".encode(), ("One".to_string(), "SYM".to_string(), 18u8, admins).encode()].concat()
    );
    let mut expected = vec![12, b'N', b'e', b'w', 12, b'O', b'n', b'e', 12, b'S', b'Y', b'M', 18, 8];
    expected.extend([10u8; 32]);
    expected.extend([SELF; 32]);
    assert_eq!(spawn.payload(), expected);
}

#[test]
fn frames_are_their_parts_in_order() {
    assert_eq!(join(vec![1, 2], vec![3]), vec![1, 2, 3]);
    assert_eq!(join(vec![], vec![]), Vec::<u8>::new());
    assert_eq!(frame(vec![1], vec![2, 3], vec![]), vec![1, 2, 3]);
    assert_eq!(frame(vec![], vec![9], vec![8, 7]), vec![9, 8, 7]);
    assert_eq!(
        frame_constructor(vec![1], vec![2, 2], vec![], 18, vec![4, 5]),
        vec![1, 2, 2, 18, 4, 5]
    );
}

#[test]
fn long_run_keeps_addresses_and_records_together() {
    let mut svc = factory();
    let mut ids: Vec<(u64, u8)> = Vec::new();
    let mut seed: u64 = 0x9e37_79b9_7f4a_7c15;
    let mut next = |bound: u64| {
        seed = seed.wrapping_mul(6364136223846793005).wrapping_add(1442695040888963407);
        (seed >> 33) % bound
    };
    let mut created = 0u64;
    for _ in 0..600 {
        if next(3) != 0 {
            let owner = next(4) as u8 + 30;
            created += 1;
            let response = deploy(&mut svc, actor(owner), "Run", actor(100));
            assert_eq!(
                response,
                ContractResponse::ProgramCreated {
                    id: created,
                    address: actor(100),
                    init_config: init_config("Run"),
                }
            );
            ids.push((created, owner));
        } else {
            let id = next(created + 2);
            let known = ids.iter().position(|e| e.0 == id);
            let outcome = svc.remove_registry(actor(ADMIN), id);
            match known {
                Some(at) => {
                    assert!(outcome.is_ok());
                    ids.remove(at);
                }
                None => assert_eq!(outcome, Err(FactoryError::IdNotFoundInAddress)),
            }
        }
        assert_eq!(svc.number(), created);
    }
    let mut addresses: Vec<u64> = svc.id_to_address().into_iter().map(|e| e.0).collect();
    addresses.sort();
    let expected: Vec<u64> = ids.iter().map(|e| e.0).collect();
    assert_eq!(addresses, expected);
    let mut recorded: Vec<(u64, u8)> = Vec::new();
    for (owner, records) in svc.registry() {
        let mut last = 0;
        for (id, _) in records {
            assert!(id > last);
            last = id;
            recorded.push((id, owner.bytes[0]));
        }
    }
    recorded.sort();
    assert_eq!(recorded, ids);
    assert!(!ids.is_empty());
}

#[test]
fn unsent_request_fails_the_step_like_a_failed_reply() {
    let (a, b) = (actor(20), actor(21));
    let plan = PoolPlan { token_a: a, token_b: b, pool_factory_address: actor(POOLS) };
    let unsent = || Reply::NotSent("no gas".to_string());
    assert_eq!(unsent().into_outcome(), Err("no gas".to_string()));
    assert_eq!(Reply::<()>::Failed("x".to_string()).into_outcome(), Err("x".to_string()));
    assert_eq!(Reply::Arrived(7u8).into_outcome(), Ok(7));
    assert_eq!(
        AwaitingTokenA { plan }.resume(unsent()),
        Err(FactoryError::VftNotFound { error: "no gas".to_string(), vft_address: a })
    );
    assert_eq!(
        AwaitingTokenB { plan }.resume(unsent()),
        Err(FactoryError::VftNotFound { error: "no gas".to_string(), vft_address: b })
    );
    assert_eq!(
        AwaitingPair { plan }.resume(unsent()),
        Err(FactoryError::ErrorWhileCreatingPool("no gas".to_string()))
    );
    assert_eq!(
        AwaitingPairAddress { plan }.resume(Reply::NotSent("no gas".to_string())),
        Err(FactoryError::ErrorWhileGettingPair("no gas".to_string()))
    );
    let mut svc = factory();
    let (waiting, _) = svc.create_program(actor(30), actor(SELF), init_config("One"));
    assert_eq!(
        waiting.resume(Reply::NotSent("no gas".to_string())),
        Err(FactoryError::ProgramInitializationFailedWithContext("no gas".to_string()))
    );
    let (waiting, _) = svc.create_program(actor(30), actor(SELF), init_config("One"));
    let (waiting, _) = waiting.resume(Reply::Arrived(actor(40))).unwrap();
    assert_eq!(
        waiting.resume(&mut svc, Reply::NotSent("no gas".to_string())),
        Err(FactoryError::ErrorWhileMinting("no gas".to_string()))
    );
    assert!(svc.id_to_address().is_empty());
    assert!(svc.registry().is_empty());
}

#[test]
fn spawn_fits_the_codec() {
    let svc = factory();
    let (_, spawn) = svc.create_program(actor(30), actor(SELF), init_config("One"));
    assert!(spawn.fits());
    let mut long = init_config("");
    long.name = "é".repeat(1000);
    long.admins = vec![actor(3); 70];
    let (_, spawn) = svc.create_program(actor(30), actor(SELF), long);
    assert!(spawn.fits());
    let admins = vec![sails_rs::ActorId::new([3; 32]); 70]
        .into_iter()
        .chain([sails_rs::ActorId::new([SELF; 32])])
        .collect::<Vec<_>>();
    assert_eq!(
        spawn.payload(),
        ["New".encode(), ("é".repeat(1000), "SYM".to_string(), 18u8, admins).encode()].concat()
    );
}
