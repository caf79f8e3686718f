use vft_contracts::primitives::{ActorId, U256};
use vft_contracts::vft::ledger::{allowance, approve, balance_of, transfer, Error, Role};
use vft_contracts::vft::service::{
    burn, mint, transfer_from, ContractEvent, IoState, Program, Service, State,
};
use vft_contracts::vft::storage::{AllowancesMap, BalancesMap};

fn actor(n: u8) -> ActorId {
    ActorId::new([n; 32])
}

fn amount(n: u128) -> U256 {
    U256::from_u128(n)
}

fn ledger(admins: Vec<ActorId>) -> Service {
    Service::new(State::new("Token".to_string(), "TKN".to_string(), 12, admins))
}

fn sum(balances: &[(ActorId, U256)]) -> u128 {
    balances.iter().map(|(_, v)| v.limbs[0] as u128 + ((v.limbs[1] as u128) << 64)).sum()
}

#[test]
fn amount_from_u128_fills_two_limbs() {
    assert_eq!(amount(0).limbs, [0, 0, 0, 0]);
    assert_eq!(amount(1000).limbs, [1000, 0, 0, 0]);
    assert_eq!(amount(u128::MAX).limbs, [u64::MAX, u64::MAX, 0, 0]);
    assert_eq!(amount((7u128 << 64) + 5).limbs, [5, 7, 0, 0]);
    assert_eq!(U256::zero(), amount(0));
    assert_eq!(U256::max_value().limbs, [u64::MAX; 4]);
}

#[test]
fn addresses_compare_by_bytes() {
    assert_eq!(actor(1), ActorId::new([1; 32]));
    assert_ne!(actor(1), actor(2));
    let mut bytes = [0u8; 32];
    assert_eq!(ActorId::zero().into_bytes(), bytes);
    bytes[31] = 1;
    assert_ne!(ActorId::new(bytes), ActorId::zero());
    assert_eq!(ActorId::new(bytes).into_bytes(), bytes);
    assert_eq!(ActorId::default(), ActorId::zero());
}

#[test]
fn new_ledger_is_empty_and_admins_hold_all_roles() {
    let a = actor(1);
    let b = actor(2);
    let svc = ledger(vec![a, b]);
    assert_eq!(svc.total_supply(), amount(0));
    assert_eq!(svc.balance_of(a), amount(0));
    assert_eq!(svc.allowance(a, b), amount(0));
    assert_eq!(svc.name(), "Token");
    assert_eq!(svc.symbol(), "TKN");
    assert_eq!(svc.decimals(), 12);
    for role in [Role::Admin, Role::Minter, Role::Burner] {
        assert!(svc.has_role(a, role));
        assert!(svc.has_role(b, role));
        assert!(!svc.has_role(actor(3), role));
    }
    let mut admins = svc.admins();
    admins.sort_by_key(|x| x.bytes);
    assert_eq!(admins, vec![a, b]);
    assert_eq!(svc.minters().len(), 2);
    assert_eq!(svc.burners().len(), 2);
}

#[test]
fn duplicate_admins_are_one_member() {
    let a = actor(1);
    let svc = ledger(vec![a, a, a]);
    assert_eq!(svc.admins(), vec![a]);
    assert_eq!(svc.minters(), vec![a]);
    assert_eq!(svc.burners(), vec![a]);
}

#[test]
fn scenario_mint_approve_transfer_from() {
    let (a, b, c, d) = (actor(1), actor(2), actor(3), actor(4));
    let mut svc = ledger(vec![a]);
    assert!(svc.has_role(a, Role::Minter));
    let minted = svc.mint(a, b, amount(1000));
    assert_eq!(
        minted,
        Ok((true, Some(ContractEvent::Minted { to: b, value: amount(1000) })))
    );
    assert_eq!(svc.balance_of(b), amount(1000));
    assert_eq!(svc.total_supply(), amount(1000));

    let approved = svc.approve(b, c, amount(400));
    assert_eq!(
        approved,
        (true, Some(ContractEvent::Approval { owner: b, spender: c, value: amount(400) }))
    );
    assert_eq!(svc.allowance(b, c), amount(400));

    let moved = svc.transfer_from(c, b, d, amount(400));
    assert_eq!(
        moved,
        Ok((true, Some(ContractEvent::Transfer { from: b, to: d, value: amount(400) })))
    );
    assert_eq!(svc.balance_of(b), amount(600));
    assert_eq!(svc.balance_of(d), amount(400));
    assert_eq!(svc.allowance(b, c), amount(0));
    assert_eq!(svc.total_supply(), amount(1000));
    let snapshot = svc.query_state();
    assert!(snapshot.allowances.is_empty());
    assert_eq!(snapshot.balances.len(), 2);
}

#[test]
fn approve_zero_without_entry_changes_nothing() {
    let (o, s) = (actor(1), actor(2));
    let mut allowances = AllowancesMap::new();
    assert!(!approve(&mut allowances, o, s, amount(0)));
    assert_eq!(allowance(&allowances, o, s), amount(0));

    let mut svc = ledger(vec![o]);
    assert_eq!(svc.approve(o, s, amount(0)), (false, None));
    assert!(svc.query_state().allowances.is_empty());
}

#[test]
fn approve_zero_with_entry_removes_it() {
    let (o, s) = (actor(1), actor(2));
    let mut svc = ledger(vec![o]);
    assert!(svc.approve(o, s, amount(5)).0);
    assert_eq!(svc.query_state().allowances, vec![((o, s), amount(5))]);
    assert_eq!(
        svc.approve(o, s, amount(0)),
        (true, Some(ContractEvent::Approval { owner: o, spender: s, value: amount(0) }))
    );
    assert!(svc.query_state().allowances.is_empty());
    assert_eq!(svc.allowance(o, s), amount(0));
    assert_eq!(svc.approve(o, s, amount(0)), (false, None));
}

#[test]
fn approve_reports_a_change_only() {
    let (o, s) = (actor(1), actor(2));
    let mut allowances = AllowancesMap::new();
    assert!(approve(&mut allowances, o, s, amount(7)));
    assert!(!approve(&mut allowances, o, s, amount(7)));
    assert!(approve(&mut allowances, o, s, amount(8)));
    assert_eq!(allowance(&allowances, o, s), amount(8));
    assert_eq!(allowance(&allowances, s, o), amount(0));
}

#[test]
fn approve_of_oneself_is_a_no_op() {
    let o = actor(1);
    let mut svc = ledger(vec![o]);
    assert_eq!(svc.approve(o, o, amount(9)), (false, None));
    assert_eq!(svc.allowance(o, o), amount(0));
    assert!(svc.query_state().allowances.is_empty());
}

#[test]
fn mint_then_burn_restores_supply_and_balance() {
    let (a, b) = (actor(1), actor(2));
    let mut svc = ledger(vec![a]);
    svc.mint(a, b, amount(70)).unwrap();
    let supply = svc.total_supply();
    let balance = svc.balance_of(b);
    assert_eq!(svc.mint(a, b, amount(30)).unwrap().0, true);
    assert_eq!(svc.total_supply(), amount(100));
    assert_eq!(
        svc.burn(a, b, amount(30)),
        Ok((true, Some(ContractEvent::Burned { from: b, value: amount(30) })))
    );
    assert_eq!(svc.total_supply(), supply);
    assert_eq!(svc.balance_of(b), balance);
}

#[test]
fn mint_then_burn_on_an_empty_account_leaves_no_entry() {
    let (a, b) = (actor(1), actor(2));
    let mut state = State::new("T".to_string(), "T".to_string(), 0, vec![a]);
    assert_eq!(mint(&mut state, b, amount(30)), Ok(true));
    assert_eq!(burn(&mut state, b, amount(30)), Ok(true));
    let snapshot = IoState::from(state);
    assert!(snapshot.balances.is_empty());
    assert_eq!(snapshot.total_supply, amount(0));
}

#[test]
fn owner_as_spender_transfers_whatever_the_allowance() {
    let (a, b, c) = (actor(1), actor(2), actor(3));
    for approved in [0u128, 1, 1000] {
        let mut with_transfer_from = ledger(vec![a]);
        let mut with_transfer = ledger(vec![a]);
        for svc in [&mut with_transfer_from, &mut with_transfer] {
            svc.mint(a, b, amount(50)).unwrap();
            svc.approve(b, c, amount(approved));
        }
        assert_eq!(
            with_transfer_from.transfer_from(b, b, c, amount(20)),
            with_transfer.transfer(b, c, amount(20))
        );
        assert_eq!(with_transfer_from.balance_of(b), amount(30));
        assert_eq!(with_transfer_from.balance_of(c), amount(20));
        assert_eq!(with_transfer_from.balance_of(b), with_transfer.balance_of(b));
        assert_eq!(with_transfer_from.allowance(b, c), amount(approved));
        assert_eq!(
            with_transfer_from.transfer_from(b, b, c, amount(31)),
            Err(Error::InsufficientBalance)
        );
    }
}

#[test]
fn transfer_to_oneself_returns_false() {
    let (a, b) = (actor(1), actor(2));
    let mut svc = ledger(vec![a]);
    svc.mint(a, b, amount(10)).unwrap();
    for v in [0u128, 1, 10, 11, u128::MAX] {
        assert_eq!(svc.transfer(b, b, amount(v)), Ok((false, None)));
        assert_eq!(svc.transfer_from(a, b, b, amount(v)), Ok((false, None)));
    }
    assert_eq!(svc.transfer(b, b, U256::max_value()), Ok((false, None)));
    assert_eq!(svc.balance_of(b), amount(10));
    let mut balances = BalancesMap::new();
    assert_eq!(transfer(&mut balances, a, a, amount(3)), Ok(false));
}

#[test]
fn transfer_of_nothing_returns_false() {
    let (a, b) = (actor(1), actor(2));
    let mut balances = BalancesMap::new();
    assert_eq!(transfer(&mut balances, a, b, amount(0)), Ok(false));
    assert_eq!(balance_of(&balances, a), amount(0));
    let mut svc = ledger(vec![a]);
    assert_eq!(svc.transfer_from(a, b, a, amount(0)), Ok((false, None)));
}

#[test]
fn transfer_needs_the_balance() {
    let (a, b) = (actor(1), actor(2));
    let mut balances = BalancesMap::new();
    assert_eq!(transfer(&mut balances, a, b, amount(1)), Err(Error::InsufficientBalance));
    let mut svc = ledger(vec![a]);
    svc.mint(a, a, amount(5)).unwrap();
    assert_eq!(svc.transfer(a, b, amount(6)), Err(Error::InsufficientBalance));
    assert_eq!(svc.balance_of(a), amount(5));
    assert_eq!(svc.balance_of(b), amount(0));
    assert_eq!(
        svc.transfer(a, b, amount(5)),
        Ok((true, Some(ContractEvent::Transfer { from: a, to: b, value: amount(5) })))
    );
    assert_eq!(svc.query_state().balances, vec![(b, amount(5))]);
}

#[test]
fn transfer_from_needs_the_allowance() {
    let (a, b, c) = (actor(1), actor(2), actor(3));
    let mut state = State::new("T".to_string(), "T".to_string(), 0, vec![a]);
    mint(&mut state, b, amount(100)).unwrap();
    assert_eq!(transfer_from(&mut state, c, b, a, amount(1)), Err(Error::InsufficientAllowance));
    let mut svc = Service::new(state);
    svc.approve(b, c, amount(10));
    assert_eq!(svc.transfer_from(c, b, a, amount(11)), Err(Error::InsufficientAllowance));
    assert_eq!(svc.transfer_from(c, b, a, amount(4)).unwrap().0, true);
    assert_eq!(svc.allowance(b, c), amount(6));
    assert_eq!(svc.balance_of(a), amount(4));
    assert_eq!(svc.balance_of(b), amount(96));
}

#[test]
fn transfer_from_with_allowance_but_no_balance_changes_nothing() {
    let (a, b, c) = (actor(1), actor(2), actor(3));
    let mut svc = ledger(vec![a]);
    svc.mint(a, b, amount(3)).unwrap();
    svc.approve(b, c, amount(10));
    assert_eq!(svc.transfer_from(c, b, a, amount(5)), Err(Error::InsufficientBalance));
    assert_eq!(svc.allowance(b, c), amount(10));
    assert_eq!(svc.balance_of(b), amount(3));
}

#[test]
fn mint_overflow_is_refused_and_changes_nothing() {
    let (a, b, c) = (actor(1), actor(2), actor(3));
    let mut svc = ledger(vec![a]);
    assert_eq!(svc.mint(a, b, U256::max_value()).unwrap().0, true);
    assert_eq!(svc.mint(a, b, amount(1)), Err(Error::NumericOverflow));
    assert_eq!(svc.mint(a, c, amount(1)), Err(Error::NumericOverflow));
    assert_eq!(svc.total_supply(), U256::max_value());
    assert_eq!(svc.balance_of(b), U256::max_value());
    assert_eq!(svc.balance_of(c), amount(0));
    assert_eq!(svc.query_state().balances, vec![(b, U256::max_value())]);
}

#[test]
fn mint_carries_between_limbs() {
    let (a, b) = (actor(1), actor(2));
    let mut svc = ledger(vec![a]);
    svc.mint(a, b, amount(u128::MAX)).unwrap();
    svc.mint(a, b, amount(1)).unwrap();
    assert_eq!(svc.total_supply().limbs, [0, 0, 1, 0]);
    assert_eq!(svc.balance_of(b).limbs, [0, 0, 1, 0]);
    svc.burn(a, b, amount(1)).unwrap();
    assert_eq!(svc.balance_of(b), amount(u128::MAX));
}

#[test]
fn mint_of_nothing_returns_false() {
    let a = actor(1);
    let mut svc = ledger(vec![a]);
    assert_eq!(svc.mint(a, a, amount(0)), Ok((false, None)));
    assert_eq!(svc.burn(a, a, amount(0)), Ok((false, None)));
    assert!(svc.query_state().balances.is_empty());
}

#[test]
fn burn_checks_supply_then_balance() {
    let (a, b, c) = (actor(1), actor(2), actor(3));
    let mut svc = ledger(vec![a]);
    svc.mint(a, b, amount(10)).unwrap();
    svc.mint(a, c, amount(5)).unwrap();
    assert_eq!(svc.burn(a, c, amount(16)), Err(Error::Underflow));
    assert_eq!(svc.burn(a, c, amount(6)), Err(Error::InsufficientBalance));
    assert_eq!(svc.total_supply(), amount(15));
    assert_eq!(svc.burn(a, c, amount(5)).unwrap().0, true);
    assert_eq!(svc.total_supply(), amount(10));
    assert_eq!(svc.query_state().balances, vec![(b, amount(10))]);
}

#[test]
fn balances_add_up_to_the_supply() {
    let (a, b, c, d) = (actor(1), actor(2), actor(3), actor(4));
    let mut svc = ledger(vec![a]);
    svc.mint(a, b, amount(1000)).unwrap();
    svc.mint(a, c, amount(234)).unwrap();
    svc.transfer(b, d, amount(1000)).unwrap();
    svc.approve(c, a, amount(34));
    svc.transfer_from(a, c, b, amount(34)).unwrap();
    svc.burn(a, d, amount(1)).unwrap();
    let _ = svc.transfer(c, d, amount(100_000));
    let snapshot = svc.query_state();
    assert_eq!(sum(&snapshot.balances), 1233);
    assert_eq!(snapshot.total_supply, amount(1233));
    assert!(snapshot.balances.iter().all(|(_, v)| *v != amount(0)));
    assert!(snapshot.allowances.iter().all(|(_, v)| *v != amount(0)));
    assert!(snapshot.allowances.is_empty());
    assert_eq!(snapshot.balances.len(), 3);
    assert_eq!(snapshot.meta.name, "Token");
    assert_eq!(snapshot.meta.decimals, 12);
}

#[test]
fn roles_are_granted_and_revoked_one_by_one() {
    let (a, b) = (actor(1), actor(2));
    let mut svc = ledger(vec![a]);
    svc.grant_minter_role(a, b);
    assert!(svc.has_role(b, Role::Minter));
    assert!(!svc.has_role(b, Role::Burner));
    assert!(!svc.has_role(b, Role::Admin));
    svc.grant_minter_role(a, b);
    assert_eq!(svc.minters().len(), 2);
    svc.grant_burner_role(a, b);
    svc.grant_admin_role(a, b);
    assert!(svc.has_role(b, Role::Burner));
    assert!(svc.has_role(b, Role::Admin));
    svc.revoke_minter_role(b, a);
    assert_eq!(svc.minters(), vec![b]);
    assert!(svc.has_role(a, Role::Admin));
    svc.revoke_burner_role(b, a);
    svc.revoke_burner_role(b, a);
    assert_eq!(svc.burners(), vec![b]);
    svc.revoke_admin_role(b, a);
    assert_eq!(svc.admins(), vec![b]);
    svc.mint(b, a, amount(1)).unwrap();
    assert_eq!(svc.balance_of(a), amount(1));
}

#[test]
fn program_hands_out_its_service() {
    let (a, b) = (actor(1), actor(2));
    let mut program = Program::new("Token".to_string(), "TKN".to_string(), 6, vec![a]);
    program.service().mint(a, b, amount(9)).unwrap();
    assert_eq!(program.service().balance_of(b), amount(9));
    assert_eq!(program.service().decimals(), 6);
}

/// A plain model of the ledger, to hold the library against on long runs.
struct Model {
    balances: std::collections::BTreeMap<u8, u128>,
    allowances: std::collections::BTreeMap<(u8, u8), u128>,
    supply: u128,
}

impl Model {
    fn transfer(&mut self, from: u8, to: u8, value: u128) -> Result<bool, Error> {
        if from == to || value == 0 {
            return Ok(false);
        }
        let held = *self.balances.get(&from).unwrap_or(&0);
        if held < value {
            return Err(Error::InsufficientBalance);
        }
        *self.balances.entry(to).or_insert(0) += value;
        if held == value {
            self.balances.remove(&from);
        } else {
            self.balances.insert(from, held - value);
        }
        Ok(true)
    }

    fn transfer_from(&mut self, spender: u8, from: u8, to: u8, value: u128) -> Result<bool, Error> {
        if spender == from {
            return self.transfer(from, to, value);
        }
        if from == to || value == 0 {
            return Ok(false);
        }
        let allowed = *self.allowances.get(&(from, spender)).unwrap_or(&0);
        if allowed < value {
            return Err(Error::InsufficientAllowance);
        }
        self.transfer(from, to, value)?;
        if allowed == value {
            self.allowances.remove(&(from, spender));
        } else {
            self.allowances.insert((from, spender), allowed - value);
        }
        Ok(true)
    }

    fn approve(&mut self, owner: u8, spender: u8, value: u128) -> bool {
        if owner == spender {
            return false;
        }
        if value == 0 {
            return self.allowances.remove(&(owner, spender)).is_some();
        }
        self.allowances.insert((owner, spender), value) != Some(value)
    }

    fn mint(&mut self, to: u8, value: u128) -> Result<bool, Error> {
        if value == 0 {
            return Ok(false);
        }
        self.supply += value;
        *self.balances.entry(to).or_insert(0) += value;
        Ok(true)
    }

    fn burn(&mut self, from: u8, value: u128) -> Result<bool, Error> {
        if value == 0 {
            return Ok(false);
        }
        if self.supply < value {
            return Err(Error::Underflow);
        }
        let held = *self.balances.get(&from).unwrap_or(&0);
        if held < value {
            return Err(Error::InsufficientBalance);
        }
        self.supply -= value;
        if held == value {
            self.balances.remove(&from);
        } else {
            self.balances.insert(from, held - value);
        }
        Ok(true)
    }
}

#[test]
fn long_run_agrees_with_a_plain_model() {
    let admin = actor(0);
    let mut svc = ledger(vec![admin]);
    let mut model = Model {
        balances: std::collections::BTreeMap::new(),
        allowances: std::collections::BTreeMap::new(),
        supply: 0,
    };
    let mut seed: u64 = 0x2545_f491_4f6c_dd1d;
    let mut next = |bound: u64| {
        seed = seed.wrapping_mul(6364136223846793005).wrapping_add(1442695040888963407);
        (seed >> 33) % bound
    };
    for _ in 0..4000 {
        let (p, q, r) = (next(5) as u8 + 1, next(5) as u8 + 1, next(5) as u8 + 1);
        let v = next(40) as u128;
        match next(5) {
            0 => assert_eq!(svc.mint(admin, actor(p), amount(v)).map(|c| c.0), model.mint(p, v)),
            1 => assert_eq!(svc.burn(admin, actor(p), amount(v)).map(|c| c.0), model.burn(p, v)),
            2 => assert_eq!(
                svc.transfer(actor(p), actor(q), amount(v)).map(|c| c.0),
                model.transfer(p, q, v)
            ),
            3 => assert_eq!(svc.approve(actor(p), actor(q), amount(v)).0, model.approve(p, q, v)),
            _ => assert_eq!(
                svc.transfer_from(actor(r), actor(p), actor(q), amount(v)).map(|c| c.0),
                model.transfer_from(r, p, q, v)
            ),
        }
        assert_eq!(svc.total_supply(), amount(model.supply));
        assert_eq!(svc.balance_of(actor(p)), amount(*model.balances.get(&p).unwrap_or(&0)));
        assert_eq!(svc.balance_of(actor(q)), amount(*model.balances.get(&q).unwrap_or(&0)));
        assert_eq!(
            svc.allowance(actor(p), actor(q)),
            amount(*model.allowances.get(&(p, q)).unwrap_or(&0))
        );
    }
    let snapshot = svc.query_state();
    let mut balances = snapshot.balances.clone();
    balances.sort_by_key(|e| e.0.bytes);
    let expected: Vec<(ActorId, U256)> =
        model.balances.iter().map(|(k, v)| (actor(*k), amount(*v))).collect();
    assert_eq!(balances, expected);
    let mut allowances = snapshot.allowances.clone();
    allowances.sort_by_key(|e| (e.0 .0.bytes, e.0 .1.bytes));
    let expected: Vec<((ActorId, ActorId), U256)> =
        model.allowances.iter().map(|(k, v)| ((actor(k.0), actor(k.1)), amount(*v))).collect();
    assert_eq!(allowances, expected);
    assert_eq!(sum(&snapshot.balances), model.supply);
    assert!(model.supply > 0);
}
