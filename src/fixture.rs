//! The fault-proof fixture: the program's inputs, the chain they belong to,
//! the status the program is expected to end with, and the witness store.

use vstd::prelude::*;
use crate::config::NativeRollupConfig;
use crate::witness::WitnessStore;

verus! {

/// The result of executing the fault-proof program. Its wire encoding is a
/// single byte: `Valid` 0, `Invalid` 1, `Panic` 2, `Unfinished` 3, `Unknown` 4,
/// and any byte above 3 reads as `Unknown`.
#[derive(Clone, Copy, Debug, PartialEq, Eq, Structural)]
pub enum FaultProofStatus {
    /// The claim is valid.
    Valid,
    /// The claim is invalid.
    Invalid,
    /// Executing the program resulted in a panic.
    Panic,
    /// The program has not exited.
    Unfinished,
    /// The status is unknown.
    Unknown,
}

/// The wire byte of a status.
pub open spec fn status_byte(s: FaultProofStatus) -> u8 {
    match s {
        FaultProofStatus::Valid => 0,
        FaultProofStatus::Invalid => 1,
        FaultProofStatus::Panic => 2,
        FaultProofStatus::Unfinished => 3,
        FaultProofStatus::Unknown => 4,
    }
}

/// The status that a wire byte stands for.
pub open spec fn status_of_byte(b: u8) -> FaultProofStatus {
    if b == 0 {
        FaultProofStatus::Valid
    } else if b == 1 {
        FaultProofStatus::Invalid
    } else if b == 2 {
        FaultProofStatus::Panic
    } else if b == 3 {
        FaultProofStatus::Unfinished
    } else {
        FaultProofStatus::Unknown
    }
}

impl Default for FaultProofStatus {
    fn default() -> (r: FaultProofStatus)
        ensures
            r == FaultProofStatus::Valid,
    {
        FaultProofStatus::Valid
    }
}

impl TryFrom<u8> for FaultProofStatus {
    type Error = String;

    fn try_from(value: u8) -> (r: Result<FaultProofStatus, String>) {
        if value == 0 {
            Ok(FaultProofStatus::Valid)
        } else if value == 1 {
            Ok(FaultProofStatus::Invalid)
        } else if value == 2 {
            Ok(FaultProofStatus::Panic)
        } else if value == 3 {
            Ok(FaultProofStatus::Unfinished)
        } else {
            Ok(FaultProofStatus::Unknown)
        }
    }
}

impl vstd::std_specs::convert::TryFromSpecImpl<u8> for FaultProofStatus {
    open spec fn obeys_try_from_spec() -> bool {
        true
    }

    open spec fn try_from_spec(v: u8) -> Result<FaultProofStatus, String> {
        Ok(status_of_byte(v))
    }
}

impl From<FaultProofStatus> for u8 {
    fn from(status: FaultProofStatus) -> (r: u8) {
        match status {
            FaultProofStatus::Valid => 0,
            FaultProofStatus::Invalid => 1,
            FaultProofStatus::Panic => 2,
            FaultProofStatus::Unfinished => 3,
            FaultProofStatus::Unknown => 4,
        }
    }
}

impl vstd::std_specs::convert::FromSpecImpl<FaultProofStatus> for u8 {
    open spec fn obeys_from_spec() -> bool {
        true
    }

    open spec fn from_spec(v: FaultProofStatus) -> u8 {
        status_byte(v)
    }
}

/// Encoding a status and reading the byte back gives the same status, and
/// every byte above 3 reads as `Unknown`.
pub proof fn lemma_status_codec(s: FaultProofStatus, b: u8)
    ensures
        status_of_byte(status_byte(s)) == s,
        b > 3 ==> status_of_byte(b) == FaultProofStatus::Unknown,
        b <= 3 ==> status_byte(status_of_byte(b)) == b,
{
}

/// Parameters of the EIP-1559 base fee, as a chain configuration states them.
#[derive(Clone, Copy, Debug, Default, PartialEq, Eq)]
pub struct OptimismConfig {
    pub eip1559_elasticity: u64,
    pub eip1559_denominator: u64,
    pub eip1559_denominator_canyon: Option<u64>,
}

/// The execution-layer chain configuration of a genesis file.
#[derive(Clone, Copy, Debug, Default, PartialEq, Eq)]
pub struct ChainConfig {
    pub chain_id: u64,
    pub homestead_block: Option<u64>,
    pub dao_fork_block: Option<u64>,
    pub dao_fork_support: Option<bool>,
    pub eip150_block: Option<u64>,
    pub eip155_block: Option<u64>,
    pub eip158_block: Option<u64>,
    pub byzantium_block: Option<u64>,
    pub constantinople_block: Option<u64>,
    pub petersburg_block: Option<u64>,
    pub istanbul_block: Option<u64>,
    pub muir_glacier_block: Option<u64>,
    pub berlin_block: Option<u64>,
    pub london_block: Option<u64>,
    pub arrow_glacier_block: Option<u64>,
    pub gray_glacier_block: Option<u64>,
    pub merge_netsplit_block: Option<u64>,
    pub shanghai_time: Option<u64>,
    pub cancun_time: Option<u64>,
    pub prague_time: Option<u64>,
    pub verkle_time: Option<u64>,
    pub bedrock_block: Option<u64>,
    pub regolith_time: Option<u64>,
    pub canyon_time: Option<u64>,
    pub ecotone_time: Option<u64>,
    pub fjord_time: Option<u64>,
    pub granite_time: Option<u64>,
    pub holocene_time: Option<u64>,
    pub interop_time: Option<u64>,
    pub terminal_total_difficulty: Option<u128>,
    pub terminal_total_difficulty_passed: Option<bool>,
    pub optimism: Option<OptimismConfig>,
}

/// The state of one account at genesis. Words are 32-byte big-endian.
#[derive(Clone, Debug, Default, PartialEq, Eq)]
pub struct AccountState {
    pub balance: Option<[u8; 32]>,
    pub code: Option<Vec<u8>>,
    pub nonce: Option<[u8; 32]>,
    /// Storage slots and their values, each slot once.
    pub storage: Vec<([u8; 32], [u8; 32])>,
}

/// The execution-layer genesis block of a chain. Words are 32-byte big-endian.
#[derive(Clone, Debug, Default, PartialEq, Eq)]
pub struct Genesis {
    pub config: ChainConfig,
    pub nonce: [u8; 32],
    pub timestamp: [u8; 32],
    pub extra_data: Option<Vec<u8>>,
    pub gas_limit: [u8; 32],
    pub difficulty: [u8; 32],
    pub mix_hash: [u8; 32],
    pub coinbase: [u8; 20],
    /// Accounts allocated at genesis, each address once.
    pub alloc: Vec<([u8; 20], AccountState)>,
    pub number: [u8; 32],
    pub gas_used: [u8; 32],
    pub parent_hash: [u8; 32],
    pub base_fee: [u8; 32],
    pub excess_blob_gas: Option<[u8; 32]>,
    pub blob_gas_used: Option<[u8; 32]>,
    pub state_hash: Option<[u8; 32]>,
}

/// Which chain a fixture belongs to.
#[derive(Clone, Debug, PartialEq, Eq)]
pub enum ChainDefinition {
    /// A well-known chain, known by name.
    Named(String),
    /// A chain given in full by its rollup configuration and genesis.
    Unnamed(NativeRollupConfig, Genesis),
}

/// The name of the chain that a fixture belongs to when nothing else is said.
pub open spec fn default_chain_name() -> Seq<char> {
    "base-mainnet"@
}

impl Default for ChainDefinition {
    fn default() -> (r: ChainDefinition)
        ensures
            r matches ChainDefinition::Named(n) && n@ == default_chain_name(),
    {
        ChainDefinition::Named(String::from_str("base-mainnet"))
    }
}

/// What the fault-proof program is asked to check: that deriving from the
/// agreed output root at the parent of `l2_block_number`, with the L1 chain
/// up to `l1_head`, gives the claimed output root.
#[derive(Clone, Debug, PartialEq, Eq)]
pub struct FaultProofInputs {
    pub l1_head: [u8; 32],
    /// The L2 block hash of the parent of `l2_block_number`.
    pub l2_head: [u8; 32],
    /// The claimed output root at `l2_block_number`.
    pub l2_claim: [u8; 32],
    /// The agreed output root at the parent of `l2_block_number`.
    pub l2_output_root: [u8; 32],
    pub l2_block_number: u64,
    pub chain_definition: ChainDefinition,
}

/// Everything needed to replay a fault-proof run offline.
#[derive(Clone, Debug)]
pub struct FaultProofFixture {
    pub inputs: FaultProofInputs,
    pub expected_status: FaultProofStatus,
    pub witness_data: WitnessStore,
}

} // verus!
