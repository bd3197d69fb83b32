//! The values that make up an XCM program: locations, assets, instructions,
//! and the version envelopes that carry them across the extension boundary.
use vstd::prelude::*;

verus! {

/// The most junctions that a location's interior may hold.
pub const MAX_JUNCTIONS: usize = 8;

/// The XCM protocol generation that every envelope built here carries.
pub const XCM_VERSION: u32 = 3;

/// One hop of a location.
#[derive(Debug, Clone, Copy)]
pub enum Junction {
    /// A parachain, by its id.
    Parachain(u32),
    /// An instance of a pallet, by its index in the runtime.
    PalletInstance(u8),
    /// An item addressed by a plain index, such as an asset id.
    GeneralIndex(u128),
    /// A 32-byte account, on the network of the enclosing consensus system.
    AccountId32 { id: [u8; 32] },
}

/// A consensus system, addressed relative to the current one: go up
/// `parents` levels, then down through the junctions of `interior`.
#[derive(Debug)]
pub struct Location {
    pub parents: u8,
    pub interior: Vec<Junction>,
}

impl Location {
    /// The interior fits the protocol's fixed arity.
    pub open spec fn wf(&self) -> bool {
        self.interior@.len() <= MAX_JUNCTIONS
    }
}

/// A fungible asset, identified by the location that designates it, and an
/// amount of it.
#[derive(Debug)]
pub struct Asset {
    pub id: Location,
    pub amount: u128,
}

/// Which assets an instruction operates on.
#[derive(Debug)]
pub enum AssetFilter {
    /// Exactly these assets.
    Definite(Vec<Asset>),
    /// Every asset in holding.
    All,
}

/// The most weight that buying execution may pay for.
#[derive(Debug, Clone, Copy, PartialEq, Eq, Structural)]
pub enum WeightLimit {
    Unlimited,
    Limited(u64),
}

/// The origin under which a remote call is dispatched.
#[derive(Debug, Clone, Copy, PartialEq, Eq, Structural)]
pub enum OriginKind {
    Native,
    SovereignAccount,
    Superuser,
    Xcm,
}

/// One step of an XCM program. The reserve instructions embed a program of
/// their own, run at the remote location once the outer step has succeeded.
#[derive(Debug)]
pub enum Instruction {
    /// Withdraws the assets from the origin's account into holding.
    WithdrawAsset(Vec<Asset>),
    /// Burns the assets and asks the reserve to withdraw them, then to run `xcm`.
    InitiateReserveWithdraw { assets: AssetFilter, reserve: Location, xcm: Vec<Instruction> },
    /// Pays `fees` for execution, up to `weight_limit`.
    BuyExecution { fees: Asset, weight_limit: WeightLimit },
    /// Deposits the assets at `dest` as a reserve, then sends it `xcm`.
    DepositReserveAsset { assets: AssetFilter, dest: Location, xcm: Vec<Instruction> },
    /// Deposits the assets into the account of `beneficiary`.
    DepositAsset { assets: AssetFilter, beneficiary: Location },
    /// Dispatches the encoded `call` under `origin_kind`, spending at most
    /// `require_weight_at_most`.
    Transact { origin_kind: OriginKind, require_weight_at_most: u64, call: Vec<u8> },
}

/// A program, tagged with the protocol generation it is written in.
#[derive(Debug)]
pub struct VersionedXcm {
    pub version: u32,
    pub program: Vec<Instruction>,
}

/// A location, tagged with the protocol generation it is written in.
#[derive(Debug)]
pub struct VersionedLocation {
    pub version: u32,
    pub location: Location,
}

} // verus!
