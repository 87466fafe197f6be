use pos::abi::AbiValue;
use pos::lottery::Lottery;
use pos::num::Address;
use pos::num::U256;
use pos::pos_prototype::PoSPrototype;
use pos::state::Archive;
use pos::state::Concern;
use pos::state::Instance;
use pos::state::Service;

fn u(x: u64) -> U256 {
    U256 { lo: x as u128, hi: 0 }
}

fn addr(x: u64) -> Address {
    Address { lo: x as u128, hi: 0 }
}

fn concern() -> Concern {
    Concern { contract_address: addr(0x1111), user_address: addr(0x2222) }
}

fn archive() -> Archive {
    Archive {
        services: vec![
            Service { name: "Lottery".to_string(), status: "Running".to_string() },
            Service { name: "PoS".to_string(), status: "Stopped".to_string() },
        ],
    }
}

fn lottery_instance() -> Instance {
    Instance {
        name: "instance".to_string(),
        concern: concern(),
        index: u(42),
        encoded_state: vec![
            AbiValue::Uint(u(1)),
            AbiValue::Uint(u(2)),
            AbiValue::Uint(u(3)),
            AbiValue::Uint(u(4)),
            AbiValue::Uint(u(5)),
            AbiValue::Uint(u(6)),
        ],
        sub_instances: vec![],
        service_status: String::new(),
    }
}

#[test]
fn pretty_instance_carries_identity_and_status() {
    let inst = lottery_instance();
    let p = Lottery::get_pretty_instance(&inst, &archive()).expect("must decode");
    assert_eq!(p.name, "Lottery".to_string());
    assert_eq!(p.concern, concern());
    assert_eq!(p.index, u(42));
    assert_eq!(p.service_status, "Running".to_string());
    assert!(p.sub_instances.is_empty());
    assert_eq!(p.fields.len(), 6);
    assert_eq!(p.fields[0].name, "block_number".to_string());
    assert_eq!(p.fields[0].value, AbiValue::Uint(u(1)));
    assert_eq!(p.fields[5].name, "log_of_distance".to_string());
    assert_eq!(p.fields[5].value, AbiValue::Uint(u(6)));
}

#[test]
fn pretty_instance_unknown_service_gets_empty_status() {
    let inst = Instance {
        encoded_state: vec![AbiValue::Bool(true), AbiValue::Address(addr(0xAB))],
        ..lottery_instance()
    };
    let p = PoSPrototype::get_pretty_instance(&inst, &archive()).expect("must decode");
    assert_eq!(p.name, "PoSPrototype".to_string());
    assert_eq!(p.service_status, String::new());
    assert_eq!(p.fields.len(), 2);
    assert_eq!(p.fields[1].name, "winner_address".to_string());
    assert_eq!(p.fields[1].value, AbiValue::Address(addr(0xAB)));
}

#[test]
fn pretty_instance_fails_like_decode_on_malformed_state() {
    let inst = Instance { encoded_state: vec![AbiValue::Bool(true)], ..lottery_instance() };
    let err = Lottery::get_pretty_instance(&inst, &archive()).expect_err("must fail");
    assert_eq!(err.variant, "Lottery".to_string());
    assert_eq!(err.payload, vec![AbiValue::Bool(true)]);
}

#[test]
fn service_lookup_takes_the_first_matching_entry() {
    let dup = Archive {
        services: vec![
            Service { name: "Lottery".to_string(), status: "First".to_string() },
            Service { name: "Lottery".to_string(), status: "Second".to_string() },
        ],
    };
    let p = Lottery::get_pretty_instance(&lottery_instance(), &dup).expect("must decode");
    assert_eq!(p.service_status, "First".to_string());
}
