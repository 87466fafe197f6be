use pos::abi::AbiValue;
use pos::lottery::Lottery;
use pos::num::Address;
use pos::num::U256;
use pos::pos::PoS;
use pos::pos_claim::PoSClaim;
use pos::pos_prototype::PoSPrototype;
use pos::reaction::Reaction;
use pos::reaction::Strategy;
use pos::state::Archive;
use pos::state::Concern;
use pos::state::Instance;

fn u(x: u64) -> U256 {
    U256 { lo: x as u128, hi: 0 }
}

fn addr(x: u64) -> Address {
    Address { lo: x as u128, hi: 0 }
}

fn concern() -> Concern {
    Concern { contract_address: addr(0x1111), user_address: addr(0x2222) }
}

fn instance(encoded_state: Vec<AbiValue>) -> Instance {
    Instance {
        name: "instance".to_string(),
        concern: concern(),
        index: u(7),
        encoded_state,
        sub_instances: vec![],
        service_status: String::new(),
    }
}

fn lottery_fields(
    block: U256,
    goal: U256,
    difficulty: U256,
    staked: U256,
    time_passed: U256,
    log_of_distance: U256,
) -> Vec<AbiValue> {
    vec![
        AbiValue::Uint(block),
        AbiValue::Uint(goal),
        AbiValue::Uint(difficulty),
        AbiValue::Uint(staked),
        AbiValue::Uint(time_passed),
        AbiValue::Uint(log_of_distance),
    ]
}

fn empty_archive() -> Archive {
    Archive { services: vec![] }
}

fn expect_transaction(r: Result<Reaction, pos::abi::DecodeError>) -> pos::reaction::TransactionRequest {
    match r.expect("expected a reaction") {
        Reaction::Transaction(req) => req,
        Reaction::Idle => panic!("expected a transaction, got the idle signal"),
    }
}

fn expect_idle(r: Result<Reaction, pos::abi::DecodeError>) {
    match r.expect("expected a reaction") {
        Reaction::Transaction(_) => panic!("expected the idle signal, got a transaction"),
        Reaction::Idle => {}
    }
}

#[test]
fn lottery_expired_contest_claims_round() {
    // 321 - 100 = 221 > 220, with the win inequality false.
    let inst = instance(lottery_fields(u(321), u(100), u(1), u(0), u(0), u(0)));
    let req = expect_transaction(Lottery::react(&inst, &empty_archive(), &None));
    assert_eq!(req.function, "claimRound".to_string());
    assert_eq!(req.data, vec![AbiValue::Uint(u(7))]);
    assert_eq!(req.concern, concern());
    assert_eq!(req.value, u(0));
    assert!(req.gas.is_none());
    assert!(matches!(req.strategy, Strategy::Simplest));
}

#[test]
fn lottery_expiry_boundary_is_strict() {
    // 320 - 100 = 220, not > 220, and the win inequality is false.
    let inst = instance(lottery_fields(u(320), u(100), u(1), u(0), u(0), u(0)));
    expect_idle(Lottery::react(&inst, &empty_archive(), &None));
}

#[test]
fn lottery_win_inequality_boundary_is_strict() {
    // staked * time = 6; difficulty * (256000000 - log) = 6; 6 > 6 is false.
    let inst = instance(lottery_fields(u(0), u(0), u(1), u(2), u(3), u(255_999_994)));
    expect_idle(Lottery::react(&inst, &empty_archive(), &None));
}

#[test]
fn lottery_win_inequality_fires_when_left_side_rises() {
    // staked * time = 7 > 6.
    let inst = instance(lottery_fields(u(0), u(0), u(1), u(7), u(1), u(255_999_994)));
    let req = expect_transaction(Lottery::react(&inst, &empty_archive(), &None));
    assert_eq!(req.function, "claimRound".to_string());
    assert_eq!(req.data, vec![AbiValue::Uint(u(7))]);
}

#[test]
fn lottery_win_inequality_fires_when_right_side_drops() {
    // difficulty * (256000000 - log) = 5 < 6.
    let inst = instance(lottery_fields(u(0), u(0), u(1), u(2), u(3), u(255_999_995)));
    let req = expect_transaction(Lottery::react(&inst, &empty_archive(), &None));
    assert_eq!(req.function, "claimRound".to_string());
}

#[test]
fn lottery_expiry_uses_full_width_block_numbers() {
    // Beyond 64 bits: block = 2^64 + 10, goal = 5.  A difference computed on
    // the low 64 bits alone would be 5 and stay idle; the full-width
    // difference is far above 220.
    let block = U256 { lo: (1u128 << 64) + 10, hi: 0 };
    let inst = instance(lottery_fields(block, u(5), u(1), u(0), u(0), u(0)));
    let req = expect_transaction(Lottery::react(&inst, &empty_archive(), &None));
    assert_eq!(req.function, "claimRound".to_string());
}

#[test]
fn lottery_win_inequality_handles_large_log_of_distance() {
    // log_of_distance beyond 256000000 makes the right-hand side negative,
    // so any positive product wins; a zero product does not.
    let inst = instance(lottery_fields(u(0), u(0), u(5), u(1), u(1), u(256_000_001)));
    expect_transaction(Lottery::react(&inst, &empty_archive(), &None));
    let idle = instance(lottery_fields(u(0), u(0), u(0), u(0), u(1), u(256_000_001)));
    expect_idle(Lottery::react(&idle, &empty_archive(), &None));
}

fn pos_fields(flag: bool, a: Address, reward: U256, split: U256) -> Vec<AbiValue> {
    vec![
        AbiValue::Bool(flag),
        AbiValue::Address(a),
        AbiValue::Uint(reward),
        AbiValue::Uint(split),
    ]
}

#[test]
fn pos_produce_needs_permission_and_reward() {
    let inst = instance(pos_fields(false, addr(0xAA), u(100), u(10)));
    expect_idle(PoS::react(&inst, &empty_archive(), &None));
    let inst = instance(pos_fields(true, addr(0xAA), u(0), u(10)));
    expect_idle(PoS::react(&inst, &empty_archive(), &None));
}

#[test]
fn pos_produce_fires_on_positive_reward() {
    let inst = instance(pos_fields(true, addr(0xAA), u(1), u(10)));
    let req = expect_transaction(PoS::react(&inst, &empty_archive(), &None));
    assert_eq!(req.function, "produceBlock".to_string());
    assert_eq!(req.data, vec![AbiValue::Uint(u(7))]);
    assert_eq!(req.value, u(0));
}

#[test]
fn pos_claim_fires_on_can_win_alone() {
    // The other fields do not matter: the prize is zero here.
    let inst = instance(pos_fields(true, addr(0xAA), u(0), u(0)));
    let req = expect_transaction(PoSClaim::react(&inst, &empty_archive(), &None));
    assert_eq!(req.function, "claimWin".to_string());
    assert_eq!(req.data, vec![AbiValue::Uint(u(7))]);
}

#[test]
fn pos_claim_idles_without_can_win() {
    let inst = instance(pos_fields(false, addr(0xAA), u(1_000_000), u(10)));
    expect_idle(PoSClaim::react(&inst, &empty_archive(), &None));
}

#[test]
fn pos_prototype_passes_winner_address_too() {
    let winner = addr(0xAB);
    let inst = instance(vec![AbiValue::Bool(true), AbiValue::Address(winner)]);
    let req = expect_transaction(PoSPrototype::react(&inst, &empty_archive(), &None));
    assert_eq!(req.function, "claimWin".to_string());
    assert_eq!(req.data, vec![AbiValue::Uint(u(7)), AbiValue::Address(winner)]);

    // Same function name as the claim variant, but one more argument.
    let claim_inst = instance(pos_fields(true, winner, u(1), u(1)));
    let claim_req = expect_transaction(PoSClaim::react(&claim_inst, &empty_archive(), &None));
    assert_eq!(claim_req.function, req.function);
    assert_eq!(claim_req.data.len(), 1);
    assert_eq!(req.data.len(), 2);
}

#[test]
fn pos_prototype_idles_without_can_win() {
    let inst = instance(vec![AbiValue::Bool(false), AbiValue::Address(addr(0xAB))]);
    expect_idle(PoSPrototype::react(&inst, &empty_archive(), &None));
}

#[test]
fn react_propagates_decode_errors() {
    // Wrong arity for the lottery schema; no best-effort decode.
    let inst = instance(vec![AbiValue::Uint(u(1))]);
    let err = Lottery::react(&inst, &empty_archive(), &None).expect_err("must fail");
    assert_eq!(err.variant, "Lottery".to_string());
    assert_eq!(err.payload, vec![AbiValue::Uint(u(1))]);
}
