//! The two contracts: each builds its program and returns the extension
//! calls that hand it to the host, in the order they must be issued.
use vstd::prelude::*;
use crate::assembler::{
    build_reserve_transfer, build_transact, is_location, is_relay_program,
    is_transact_program, parachain_location,
};
use crate::gateway::ExtensionCall;
use crate::model::{Junction, VersionedLocation, VersionedXcm, XCM_VERSION};

verus! {

/// The calls that run `account`'s relay program locally: stage it, then
/// execute it.
pub open spec fn is_relay_dispatch(calls: Seq<ExtensionCall>, account: [u8; 32]) -> bool {
    &&& calls.len() == 2
    &&& calls[0] matches ExtensionCall::PrepareExecute(x) && x.version == XCM_VERSION
        && is_relay_program(x.program@, account)
    &&& calls[1] is Execute
}

/// The calls that send the remote-call program to `parachain_id`: stage it
/// for that destination, then send it.
pub open spec fn is_transact_dispatch(
    calls: Seq<ExtensionCall>,
    parachain_id: u32,
    call: Seq<u8>,
    weight: u64,
) -> bool {
    &&& calls.len() == 2
    &&& calls[0] matches ExtensionCall::PrepareSend { dest, xcm }
        && dest.version == XCM_VERSION
        && is_location(dest.location, 1, seq![Junction::Parachain(parachain_id)])
        && xcm.version == XCM_VERSION && is_transact_program(xcm.program@, call, weight)
    &&& calls[1] is Send
}

/// The contract that relays a reserve-backed asset to a beneficiary.
pub struct XcmPlayground {
    value: bool,
}

impl XcmPlayground {
    /// The stored flag; no message reads or writes it.
    pub closed spec fn flag(&self) -> bool {
        self.value
    }

    /// A contract whose flag is `init_value`.
    pub fn new(init_value: bool) -> (r: Self)
        ensures
            r.flag() == init_value,
    {
        XcmPlayground { value: init_value }
    }

    /// A contract whose flag is `false`.
    pub fn default() -> (r: Self)
        ensures
            r.flag() == false,
    {
        Self::new(false)
    }

    /// Relays the fixed amount of the reserve-backed asset to `account` on
    /// the destination parachain. Returns the extension calls to issue, in
    /// order: stage the version-tagged program, then execute it.
    pub fn send_message(&mut self, account: [u8; 32]) -> (calls: Vec<ExtensionCall>)
        ensures
            is_relay_dispatch(calls@, account),
            final(self).flag() == old(self).flag(),
    {
        let program = VersionedXcm { version: XCM_VERSION, program: build_reserve_transfer(account) };
        let mut calls: Vec<ExtensionCall> = Vec::new();
        calls.push(ExtensionCall::PrepareExecute(program));
        calls.push(ExtensionCall::Execute);
        calls
    }
}

/// The contract that dispatches a call on another parachain.
pub struct XcmTransactPlayground {
    value: bool,
}

impl XcmTransactPlayground {
    /// The stored flag; no message reads or writes it.
    pub closed spec fn flag(&self) -> bool {
        self.value
    }

    /// A contract whose flag is `init_value`.
    pub fn new(init_value: bool) -> (r: Self)
        ensures
            r.flag() == init_value,
    {
        XcmTransactPlayground { value: init_value }
    }

    /// A contract whose flag is `false`.
    pub fn default() -> (r: Self)
        ensures
            r.flag() == false,
    {
        Self::new(false)
    }

    /// Dispatches `call` on parachain `parachain_id` with a native origin,
    /// spending at most `weight`. Returns the extension calls to issue, in
    /// order: stage the version-tagged program for that destination, then
    /// send it.
    pub fn send_message(&mut self, parachain_id: u32, call: Vec<u8>, weight: u64) -> (calls: Vec<
        ExtensionCall,
    >)
        ensures
            is_transact_dispatch(calls@, parachain_id, call@, weight),
            final(self).flag() == old(self).flag(),
    {
        let dest = VersionedLocation { version: XCM_VERSION, location: parachain_location(parachain_id) };
        let xcm = VersionedXcm { version: XCM_VERSION, program: build_transact(call, weight) };
        let mut calls: Vec<ExtensionCall> = Vec::new();
        calls.push(ExtensionCall::PrepareSend { dest, xcm });
        calls.push(ExtensionCall::Send);
        calls
    }
}

} // verus!
