use xcm_playground::assembler::{
    build_reserve_transfer, build_transact, parachain_location, ASSET_INDEX,
    ASSET_PALLET_INSTANCE, DEST_PARA_ID, FEE_AMOUNT, RESERVE_PARA_ID, WITHDRAW_AMOUNT,
};
use xcm_playground::gateway::ExtensionCall;
use xcm_playground::model::{
    Asset, AssetFilter, Instruction, Junction, Location, OriginKind, WeightLimit, XCM_VERSION,
};
use xcm_playground::{XcmPlayground, XcmTransactPlayground};

fn is_parachain(l: &Location, parents: u8, id: u32) -> bool {
    l.parents == parents
        && l.interior.len() == 1
        && matches!(l.interior[0], Junction::Parachain(p) if p == id)
}

fn is_relayed_asset(a: &Asset, parents: u8, via_reserve: bool, amount: u128) -> bool {
    let js = &a.id.interior;
    let tail = if via_reserve {
        js.len() == 3 && matches!(js[0], Junction::Parachain(p) if p == RESERVE_PARA_ID)
    } else {
        js.len() == 2
    };
    let off = if via_reserve { 1 } else { 0 };
    a.id.parents == parents
        && a.amount == amount
        && tail
        && matches!(js[off], Junction::PalletInstance(i) if i == ASSET_PALLET_INSTANCE)
        && matches!(js[off + 1], Junction::GeneralIndex(g) if g == ASSET_INDEX)
}

/// Walks the relay program and returns the beneficiary account of its
/// innermost deposit, checking every step on the way.
fn relay_beneficiary(p: &[Instruction]) -> [u8; 32] {
    assert_eq!(p.len(), 2);
    match &p[0] {
        Instruction::WithdrawAsset(assets) => {
            assert_eq!(assets.len(), 1);
            assert!(is_relayed_asset(&assets[0], 1, true, WITHDRAW_AMOUNT));
        }
        other => panic!("first step is {:?}", other),
    }
    let onward = match &p[1] {
        Instruction::InitiateReserveWithdraw { assets, reserve, xcm } => {
            assert!(matches!(assets, AssetFilter::All));
            assert!(is_parachain(reserve, 1, RESERVE_PARA_ID));
            xcm
        }
        other => panic!("second step is {:?}", other),
    };
    assert_eq!(onward.len(), 2);
    match &onward[0] {
        Instruction::BuyExecution { fees, weight_limit } => {
            assert!(is_relayed_asset(fees, 0, false, FEE_AMOUNT));
            assert_eq!(*weight_limit, WeightLimit::Unlimited);
        }
        other => panic!("reserve step one is {:?}", other),
    }
    let last = match &onward[1] {
        Instruction::DepositReserveAsset { assets, dest, xcm } => {
            assert!(matches!(assets, AssetFilter::All));
            assert!(is_parachain(dest, 1, DEST_PARA_ID));
            xcm
        }
        other => panic!("reserve step two is {:?}", other),
    };
    assert_eq!(last.len(), 1);
    match &last[0] {
        Instruction::DepositAsset { assets, beneficiary } => {
            assert!(matches!(assets, AssetFilter::All));
            assert_eq!(beneficiary.parents, 0);
            assert_eq!(beneficiary.interior.len(), 1);
            match beneficiary.interior[0] {
                Junction::AccountId32 { id } => id,
                other => panic!("beneficiary junction is {:?}", other),
            }
        }
        other => panic!("destination step is {:?}", other),
    }
}

#[test]
fn relay_of_zero_account_deposits_to_zero_bytes() {
    let mut contract = XcmPlayground::default();
    let calls = contract.send_message([0u8; 32]);
    assert_eq!(calls.len(), 2);
    match &calls[0] {
        ExtensionCall::PrepareExecute(x) => {
            assert_eq!(x.version, XCM_VERSION);
            assert_eq!(relay_beneficiary(&x.program), [0u8; 32]);
        }
        other => panic!("first call is {:?}", other),
    }
    assert!(matches!(calls[1], ExtensionCall::Execute));
}

#[test]
fn relay_keeps_every_account_byte() {
    let mut account = [0u8; 32];
    for (i, b) in account.iter_mut().enumerate() {
        *b = (i as u8) * 7 + 1;
    }
    assert_eq!(relay_beneficiary(&build_reserve_transfer(account)), account);
    assert_eq!(relay_beneficiary(&build_reserve_transfer([0xFF; 32])), [0xFF; 32]);
}

#[test]
fn relay_uses_the_fixed_route() {
    assert_eq!(RESERVE_PARA_ID, 1000);
    assert_eq!(DEST_PARA_ID, 3000);
    assert_eq!(ASSET_PALLET_INSTANCE, 50);
    assert_eq!(ASSET_INDEX, 1);
    assert_eq!(WITHDRAW_AMOUNT, 5_000_000_000_000);
    assert_eq!(FEE_AMOUNT, 1_000_000_000_000);
}

fn check_transact_dispatch(parachain_id: u32, call: Vec<u8>, weight: u64) {
    let mut contract = XcmTransactPlayground::new(true);
    let calls = contract.send_message(parachain_id, call.clone(), weight);
    assert_eq!(calls.len(), 2);
    match &calls[0] {
        ExtensionCall::PrepareSend { dest, xcm } => {
            assert_eq!(dest.version, XCM_VERSION);
            assert!(is_parachain(&dest.location, 1, parachain_id));
            assert_eq!(xcm.version, XCM_VERSION);
            assert_eq!(xcm.program.len(), 1);
            match &xcm.program[0] {
                Instruction::Transact { origin_kind, require_weight_at_most, call: c } => {
                    assert_eq!(*origin_kind, OriginKind::Native);
                    assert_eq!(*require_weight_at_most, weight);
                    assert_eq!(*c, call);
                }
                other => panic!("program holds {:?}", other),
            }
        }
        other => panic!("first call is {:?}", other),
    }
    assert!(matches!(calls[1], ExtensionCall::Send));
}

#[test]
fn transact_to_parachain_2000() {
    check_transact_dispatch(2000, vec![0xDE, 0xAD, 0xBE, 0xEF], 5_000_000_000);
}

#[test]
fn transact_with_empty_call_and_largest_weight() {
    check_transact_dispatch(0, Vec::new(), u64::MAX);
    check_transact_dispatch(u32::MAX, vec![0], 0);
}

#[test]
fn transact_program_alone() {
    let p = build_transact(vec![1, 2, 3], 42);
    assert_eq!(p.len(), 1);
    assert!(matches!(
        &p[0],
        Instruction::Transact { origin_kind: OriginKind::Native, require_weight_at_most: 42, call }
            if *call == vec![1, 2, 3]
    ));
}

#[test]
fn parachain_location_is_one_level_up() {
    assert!(is_parachain(&parachain_location(2000), 1, 2000));
}
