//! Builds the two fixed-shape programs: a reserve-backed asset relay and a
//! remote call.
use vstd::prelude::*;
use crate::model::{
    Asset, AssetFilter, Instruction, Junction, Location, OriginKind, WeightLimit,
};

verus! {

/// The parachain that holds the reserve of the relayed asset.
pub const RESERVE_PARA_ID: u32 = 1000;

/// The parachain on which the relayed asset is deposited.
pub const DEST_PARA_ID: u32 = 3000;

/// The assets pallet of the reserve parachain.
pub const ASSET_PALLET_INSTANCE: u8 = 50;

/// The id of the relayed asset in that pallet.
pub const ASSET_INDEX: u128 = 1;

/// How much of the relayed asset is withdrawn.
pub const WITHDRAW_AMOUNT: u128 = 5_000_000_000_000;

/// How much of the relayed asset pays for execution at the reserve.
pub const FEE_AMOUNT: u128 = 1_000_000_000_000;

/// `l` is `parents` levels up, then down through `junctions`.
pub open spec fn is_location(l: Location, parents: u8, junctions: Seq<Junction>) -> bool {
    l.parents == parents && l.interior@ == junctions
}

/// `a` is `amount` of the asset at `parents` levels up, then `junctions`.
pub open spec fn is_asset(a: Asset, parents: u8, junctions: Seq<Junction>, amount: u128) -> bool {
    is_location(a.id, parents, junctions) && a.amount == amount
}

/// The relayed asset, seen from a sibling parachain.
pub open spec fn reserve_asset_junctions() -> Seq<Junction> {
    seq![
        Junction::Parachain(RESERVE_PARA_ID),
        Junction::PalletInstance(ASSET_PALLET_INSTANCE),
        Junction::GeneralIndex(ASSET_INDEX),
    ]
}

/// The relayed asset, seen from its reserve parachain.
pub open spec fn local_asset_junctions() -> Seq<Junction> {
    seq![Junction::PalletInstance(ASSET_PALLET_INSTANCE), Junction::GeneralIndex(ASSET_INDEX)]
}

/// First step: withdraw the fixed amount of the relayed asset.
pub open spec fn is_withdraw_step(i: Instruction) -> bool {
    match i {
        Instruction::WithdrawAsset(assets) => {
            &&& assets@.len() == 1
            &&& is_asset(assets@[0], 1, reserve_asset_junctions(), WITHDRAW_AMOUNT)
        },
        _ => false,
    }
}

/// At the reserve: buy execution with the fee amount, without a weight limit.
pub open spec fn is_buy_execution_step(i: Instruction) -> bool {
    match i {
        Instruction::BuyExecution { fees, weight_limit } => {
            &&& is_asset(fees, 0, local_asset_junctions(), FEE_AMOUNT)
            &&& weight_limit == WeightLimit::Unlimited
        },
        _ => false,
    }
}

/// At the destination: deposit everything to the account `account`.
pub open spec fn is_deposit_step(i: Instruction, account: [u8; 32]) -> bool {
    match i {
        Instruction::DepositAsset { assets, beneficiary } => {
            &&& assets is All
            &&& is_location(beneficiary, 0, seq![Junction::AccountId32 { id: account }])
        },
        _ => false,
    }
}

/// At the reserve: deposit everything at the destination parachain, which
/// then runs the deposit step.
pub open spec fn is_deposit_reserve_step(i: Instruction, account: [u8; 32]) -> bool {
    match i {
        Instruction::DepositReserveAsset { assets, dest, xcm } => {
            &&& assets is All
            &&& is_location(dest, 1, seq![Junction::Parachain(DEST_PARA_ID)])
            &&& xcm@.len() == 1
            &&& is_deposit_step(xcm@[0], account)
        },
        _ => false,
    }
}

/// Second step: hand everything to the reserve parachain, which buys
/// execution and deposits it onwards.
pub open spec fn is_reserve_withdraw_step(i: Instruction, account: [u8; 32]) -> bool {
    match i {
        Instruction::InitiateReserveWithdraw { assets, reserve, xcm } => {
            &&& assets is All
            &&& is_location(reserve, 1, seq![Junction::Parachain(RESERVE_PARA_ID)])
            &&& xcm@.len() == 2
            &&& is_buy_execution_step(xcm@[0])
            &&& is_deposit_reserve_step(xcm@[1], account)
        },
        _ => false,
    }
}

/// The whole relay program for the beneficiary `account`.
pub open spec fn is_relay_program(p: Seq<Instruction>, account: [u8; 32]) -> bool {
    &&& p.len() == 2
    &&& is_withdraw_step(p[0])
    &&& is_reserve_withdraw_step(p[1], account)
}

/// The account that the innermost deposit of a relay-shaped program pays
/// to, read by walking the nesting.
pub open spec fn relay_beneficiary(p: Seq<Instruction>) -> Option<[u8; 32]> {
    if p.len() < 2 {
        None
    } else {
        match p[1] {
            Instruction::InitiateReserveWithdraw { xcm: onward, .. } => if onward@.len() < 2 {
                None
            } else {
                match onward@[1] {
                    Instruction::DepositReserveAsset { xcm: last, .. } => if last@.len() < 1 {
                        None
                    } else {
                        match last@[0] {
                            Instruction::DepositAsset { beneficiary, .. } => {
                                if beneficiary.interior@.len() != 1 {
                                    None
                                } else {
                                    match beneficiary.interior@[0] {
                                        Junction::AccountId32 { id } => Some(id),
                                        _ => None,
                                    }
                                }
                            },
                            _ => None,
                        }
                    },
                    _ => None,
                }
            },
            _ => None,
        }
    }
}

/// The remote-call program: one `Transact` with a native origin.
pub open spec fn is_transact_program(p: Seq<Instruction>, call: Seq<u8>, weight: u64) -> bool {
    &&& p.len() == 1
    &&& p[0] matches Instruction::Transact { origin_kind, require_weight_at_most, call: c }
        && origin_kind == OriginKind::Native && require_weight_at_most == weight && c@ == call
}

/// Whatever the account, the innermost deposit of the relay program built
/// for it pays to exactly that account: the 32 bytes come back unchanged.
pub proof fn lemma_relay_beneficiary_round_trip(p: Seq<Instruction>, account: [u8; 32])
    requires
        is_relay_program(p, account),
    ensures
        relay_beneficiary(p) == Some(account),
{
}

/// A location `parents` levels up with the single junction `j`.
fn location_of(parents: u8, j: Junction) -> (l: Location)
    ensures
        is_location(l, parents, seq![j]),
        l.wf(),
{
    let mut interior: Vec<Junction> = Vec::new();
    interior.push(j);
    Location { parents, interior }
}

/// The relayed asset: `amount` of it, at `parents` levels up, reached
/// through the reserve parachain only where `via_reserve`.
fn relayed_asset(parents: u8, via_reserve: bool, amount: u128) -> (a: Asset)
    ensures
        via_reserve ==> is_asset(a, parents, reserve_asset_junctions(), amount),
        !via_reserve ==> is_asset(a, parents, local_asset_junctions(), amount),
{
    let mut interior: Vec<Junction> = Vec::new();
    if via_reserve {
        interior.push(Junction::Parachain(RESERVE_PARA_ID));
    }
    interior.push(Junction::PalletInstance(ASSET_PALLET_INSTANCE));
    interior.push(Junction::GeneralIndex(ASSET_INDEX));
    proof {
        if via_reserve {
            assert(interior@ =~= reserve_asset_junctions());
        } else {
            assert(interior@ =~= local_asset_junctions());
        }
    }
    Asset { id: Location { parents, interior }, amount }
}

/// Builds the relay program: withdraw the fixed amount of the reserve-backed
/// asset, have its reserve parachain buy execution and deposit it at the
/// destination parachain, which deposits everything to `account`.
pub fn build_reserve_transfer(account: [u8; 32]) -> (p: Vec<Instruction>)
    ensures
        is_relay_program(p@, account),
        relay_beneficiary(p@) == Some(account),
{
    let mut withdrawn: Vec<Asset> = Vec::new();
    withdrawn.push(relayed_asset(1, true, WITHDRAW_AMOUNT));

    let mut deposit: Vec<Instruction> = Vec::new();
    deposit.push(
        Instruction::DepositAsset {
            assets: AssetFilter::All,
            beneficiary: location_of(0, Junction::AccountId32 { id: account }),
        },
    );

    let mut onward: Vec<Instruction> = Vec::new();
    onward.push(
        Instruction::BuyExecution {
            fees: relayed_asset(0, false, FEE_AMOUNT),
            weight_limit: WeightLimit::Unlimited,
        },
    );
    onward.push(
        Instruction::DepositReserveAsset {
            assets: AssetFilter::All,
            dest: location_of(1, Junction::Parachain(DEST_PARA_ID)),
            xcm: deposit,
        },
    );

    let mut program: Vec<Instruction> = Vec::new();
    program.push(Instruction::WithdrawAsset(withdrawn));
    program.push(
        Instruction::InitiateReserveWithdraw {
            assets: AssetFilter::All,
            reserve: location_of(1, Junction::Parachain(RESERVE_PARA_ID)),
            xcm: onward,
        },
    );
    program
}

/// The location of the sibling parachain `parachain_id`.
pub fn parachain_location(parachain_id: u32) -> (l: Location)
    ensures
        is_location(l, 1, seq![Junction::Parachain(parachain_id)]),
        l.wf(),
{
    location_of(1, Junction::Parachain(parachain_id))
}

/// Builds the remote-call program: dispatch `call` with a native origin,
/// spending at most `weight`.
pub fn build_transact(call: Vec<u8>, weight: u64) -> (p: Vec<Instruction>)
    ensures
        is_transact_program(p@, call@, weight),
{
    let mut program: Vec<Instruction> = Vec::new();
    program.push(
        Instruction::Transact {
            origin_kind: OriginKind::Native,
            require_weight_at_most: weight,
            call,
        },
    );
    program
}

} // verus!
