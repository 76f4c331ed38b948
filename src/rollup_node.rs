//! The shapes of what a rollup node answers about outputs and safe heads.

use vstd::prelude::*;
use crate::config::BlockId;
use crate::hex_text::hex_digits;

verus! {

/// A reference to an L2 block.
#[derive(Clone, Copy, Debug, PartialEq, Eq)]
pub struct L2BlockRef {
    pub hash: [u8; 32],
    pub number: u64,
    pub parent_hash: [u8; 32],
    pub timestamp: u64,
    /// The L1 block that this block was derived from.
    pub l1_origin: BlockId,
    pub sequence_number: u64,
}

/// The output of an L2 block.
#[derive(Clone, Copy, Debug, PartialEq, Eq)]
pub struct OutputResponse {
    pub version: [u8; 32],
    pub output_root: [u8; 32],
    pub block_ref: L2BlockRef,
    pub withdrawal_storage_root: [u8; 32],
    pub state_root: [u8; 32],
}

/// The safe L2 head as of an L1 block.
#[derive(Clone, Copy, Debug, PartialEq, Eq)]
pub struct SafeHeadResponse {
    pub l1_block: BlockId,
    pub safe_head: BlockId,
}

/// Lowercase hexadecimal digits of `n`, without leading zeros.
pub open spec fn hex_quantity_of(n: nat) -> Seq<char>
    decreases n,
{
    if n < 16 {
        seq![hex_digits()[n as int]]
    } else {
        hex_quantity_of(n / 16) + seq![hex_digits()[(n % 16) as int]]
    }
}

/// Relies on `u64`'s `LowerHex` formatting: lowercase digits, no leading zeros.
#[verifier::external_body]
fn lower_hex(n: u64) -> (r: String)
    ensures
        r@ == hex_quantity_of(n as nat),
{
    format!("{:x}", n)
}

/// A block number as a JSON-RPC quantity parameter: `0x` and its lowercase
/// hexadecimal digits, without leading zeros.
pub fn block_number_param(n: u64) -> (r: String)
    ensures
        r@ == seq!['0', 'x'] + hex_quantity_of(n as nat),
{
    let mut r = String::from_str("0x");
    let digits = lower_hex(n);
    r.append(digits.as_str());
    proof {
        reveal_strlit("0x");
        assert("0x"@ =~= seq!['0', 'x']);
    }
    r
}

} // verus!
