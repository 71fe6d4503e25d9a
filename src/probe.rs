use vstd::prelude::*;
use crate::config::{FORK_BLOCK, GAS_LIMIT};

verus! {

/// Balance given to the sender before the probe so that it can pay for gas (10 ether).
pub const SENDER_BALANCE: u64 = 10_000_000_000_000_000_000;

/// Chain id of the forked chain.
pub const CHAIN_ID: u64 = 1;

/// The fixed administrative call that a trial times: `shutdownSystem()` on the
/// system contract, sent by its owner against the pinned fork block.
#[derive(Clone, Copy, Debug)]
pub struct ProbeCall {
    pub target: [u8; 20],
    pub sender: [u8; 20],
    pub sender_balance: u64,
    pub gas: u64,
    pub chain_id: u64,
    pub block: u64,
    /// ABI-encoded call.
    pub data: [u8; 4],
}

/// Address of the system contract, 0xF403C135812408BFbE8713b5A23a04b3D48AAE31.
pub open spec fn target_address() -> Seq<u8> {
    seq![0xF4u8, 0x03, 0xC1, 0x35, 0x81, 0x24, 0x08, 0xBF, 0xBE, 0x87,
         0x13, 0xB5, 0xA2, 0x3A, 0x04, 0xB3, 0xD4, 0x8A, 0xAE, 0x31]
}

/// Address of the contract's owner, 0x3cE6408F923326f81A7D7929952947748180f1E6.
pub open spec fn sender_address() -> Seq<u8> {
    seq![0x3Cu8, 0xE6, 0x40, 0x8F, 0x92, 0x33, 0x26, 0xF8, 0x1A, 0x7D,
         0x79, 0x29, 0x95, 0x29, 0x47, 0x74, 0x81, 0x80, 0xF1, 0xE6]
}

/// Four-byte selector of a function signature: the start of its Keccak-256 hash.
pub uninterp spec fn selector_of(signature: Seq<char>) -> Seq<u8>;

/// Relies on ethers::utils::id: the selector that ABI encoding puts in front of a
/// call's arguments; a call without arguments is encoded as the selector alone.
#[verifier::external_body]
fn function_selector(signature: &str) -> (r: [u8; 4])
    ensures
        r@ == selector_of(signature@),
{
    ethers::utils::id(signature)
}

/// Whether `p` is the shutdown probe whose call data is `data`.
pub open spec fn is_probe(p: ProbeCall, data: Seq<u8>) -> bool {
    &&& p.target@ == target_address()
    &&& p.sender@ == sender_address()
    &&& p.sender_balance == SENDER_BALANCE
    &&& p.gas == GAS_LIMIT
    &&& p.chain_id == CHAIN_ID
    &&& p.block == FORK_BLOCK
    &&& p.data@ == data
}

/// The probe with the given encoded call.
pub fn probe_with_selector(selector: [u8; 4]) -> (r: ProbeCall)
    ensures
        is_probe(r, selector@),
{
    let target: [u8; 20] = [0xF4, 0x03, 0xC1, 0x35, 0x81, 0x24, 0x08, 0xBF, 0xBE, 0x87,
        0x13, 0xB5, 0xA2, 0x3A, 0x04, 0xB3, 0xD4, 0x8A, 0xAE, 0x31];
    let sender: [u8; 20] = [0x3C, 0xE6, 0x40, 0x8F, 0x92, 0x33, 0x26, 0xF8, 0x1A, 0x7D,
        0x79, 0x29, 0x95, 0x29, 0x47, 0x74, 0x81, 0x80, 0xF1, 0xE6];
    assert(target@ =~= target_address());
    assert(sender@ =~= sender_address());
    ProbeCall {
        target,
        sender,
        sender_balance: SENDER_BALANCE,
        gas: GAS_LIMIT,
        chain_id: CHAIN_ID,
        block: FORK_BLOCK,
        data: selector,
    }
}

/// The probe that every trial sends: a call of `shutdownSystem()`.
pub fn shutdown_probe() -> (r: ProbeCall)
    ensures
        is_probe(r, selector_of("shutdownSystem()"@)),
{
    let selector = function_selector("shutdownSystem()");
    probe_with_selector(selector)
}

} // verus!
