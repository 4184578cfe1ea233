use minidao::{
    encode_chain_call, encode_contract_call, AccountId, Asset, Call, Instruction, Junction,
    Location, OriginKind, Weight, WeightLimit,
};

#[test]
fn test_encode_chain_call_instruction_order() {
    let chain_call = encode_chain_call(
        1000,
        Location::parent(),
        9_999,
        vec![0xAB, 0xCD],
        5_000_000_000,
        1_000_000,
    );

    assert_eq!(
        chain_call.dest,
        Location { parents: 1, interior: vec![Junction::Parachain(1000)] }
    );

    let fee_asset = Asset { location: Location { parents: 1, interior: vec![] }, amount: 9_999 };
    assert_eq!(chain_call.msg.len(), 3);
    assert_eq!(chain_call.msg[0], Instruction::WithdrawAsset(fee_asset.clone()));
    assert_eq!(
        chain_call.msg[1],
        Instruction::BuyExecution { fees: fee_asset, weight_limit: WeightLimit::Unlimited }
    );
    assert_eq!(
        chain_call.msg[2],
        Instruction::Transact {
            origin_kind: OriginKind::SovereignAccount,
            require_weight_at_most: Weight { ref_time: 5_000_000_000, proof_size: 1_000_000 },
            call: vec![0xAB, 0xCD],
        }
    );
}

#[test]
fn test_encode_chain_call_keeps_fee_location() {
    let fee_location = Location { parents: 0, interior: vec![Junction::Parachain(42)] };
    let chain_call = encode_chain_call(2000, fee_location.clone(), 5, vec![], 1, 2);

    match &chain_call.msg[0] {
        Instruction::WithdrawAsset(asset) => {
            assert_eq!(asset.location, fee_location);
            assert_eq!(asset.amount, 5);
        }
        other => panic!("expected a withdrawal, found {:?}", other),
    }
    assert_eq!(
        chain_call.dest,
        Location { parents: 1, interior: vec![Junction::Parachain(2000)] }
    );
}

#[test]
fn test_encode_contract_call_keeps_every_part() {
    let callee = AccountId::from([0x11; 32]);
    let call = encode_contract_call(callee, [1, 2, 3, 4], vec![9, 8], 700, 600, false);

    match call {
        Call::Contract(contract_call) => {
            assert_eq!(contract_call.callee, AccountId::from([0x11; 32]));
            assert_eq!(contract_call.selector, [1, 2, 3, 4]);
            assert_eq!(contract_call.input, vec![9, 8]);
            assert_eq!(contract_call.transferred_value, 700);
            assert_eq!(contract_call.ref_time_limit, 600);
            assert!(!contract_call.allow_reentry);
        }
        Call::Chain(_) => panic!("expected a contract call"),
    }
}

#[test]
fn test_parent_location() {
    let parent = Location::parent();
    assert_eq!(parent, Location { parents: 1, interior: vec![] });
}

#[test]
fn test_weight_from_parts() {
    assert_eq!(Weight::from_parts(3, 4), Weight { ref_time: 3, proof_size: 4 });
}

#[test]
fn test_account_ids_compare_by_bytes() {
    let mut bytes = [0x01; 32];
    let a = AccountId::from(bytes);
    let b = AccountId::new(bytes);
    assert_eq!(a, b);

    bytes[31] = 0x02;
    let c = AccountId::from(bytes);
    assert_ne!(a, c);
}
