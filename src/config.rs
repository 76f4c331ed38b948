//! Rollup configuration in two shapes: the registry's native shape, and the
//! flat, portable shape that fixtures and the fault-proof program exchange.

use vstd::prelude::*;

verus! {

/// A block, by hash and number.
#[derive(Clone, Copy, Debug, Default, PartialEq, Eq)]
pub struct BlockId {
    pub hash: [u8; 32],
    pub number: u64,
}

/// The system configuration at genesis, as the portable shape carries it.
#[derive(Clone, Copy, Debug, Default, PartialEq, Eq)]
pub struct SystemConfig {
    pub batcher_addr: [u8; 20],
    /// Fee overhead, as a 32-byte big-endian word.
    pub overhead: [u8; 32],
    /// Fee scalar, as a 32-byte big-endian word.
    pub scalar: [u8; 32],
    pub gas_limit: u64,
}

/// The rollup genesis, as the portable shape carries it.
#[derive(Clone, Copy, Debug, Default, PartialEq, Eq)]
pub struct Genesis {
    pub l1: BlockId,
    pub l2: BlockId,
    pub l2_time: u64,
    pub system_config: SystemConfig,
}

/// The portable rollup configuration.
#[derive(Clone, Copy, Debug, Default, PartialEq, Eq)]
pub struct RollupConfig {
    pub genesis: Genesis,
    pub block_time: u64,
    pub max_sequencer_drift: u64,
    pub seq_window_size: u64,
    pub channel_timeout_bedrock: u64,
    pub l1_chain_id: Option<u128>,
    pub l2_chain_id: Option<u128>,
    pub regolith_time: Option<u64>,
    pub canyon_time: Option<u64>,
    pub delta_time: Option<u64>,
    pub ecotone_time: Option<u64>,
    pub fjord_time: Option<u64>,
    pub granite_time: Option<u64>,
    pub interop_time: Option<u64>,
    pub batch_inbox_address: [u8; 20],
    pub deposit_contract_address: [u8; 20],
    pub l1_system_config_address: [u8; 20],
    pub protocol_versions_address: Option<[u8; 20]>,
    pub da_challenge_address: Option<[u8; 20]>,
}

/// EIP-1559 base-fee parameters.
#[derive(Clone, Copy, Debug, PartialEq, Eq)]
pub struct BaseFeeParams {
    pub max_change_denominator: u128,
    pub elasticity_multiplier: u128,
}

/// The system configuration at genesis, in the registry's native shape.
#[derive(Clone, Copy, Debug, PartialEq, Eq)]
pub struct NativeSystemConfig {
    pub batcher_address: [u8; 20],
    /// Fee overhead, as a 32-byte big-endian word.
    pub overhead: [u8; 32],
    /// Fee scalar, as a 32-byte big-endian word.
    pub scalar: [u8; 32],
    pub gas_limit: u64,
    pub base_fee_scalar: Option<u64>,
    pub blob_base_fee_scalar: Option<u64>,
}

/// The rollup genesis, in the registry's native shape.
#[derive(Clone, Debug, PartialEq, Eq)]
pub struct ChainGenesis {
    pub l1: BlockId,
    pub l2: BlockId,
    pub l2_time: u64,
    pub extra_data: Option<Vec<u8>>,
    pub system_config: Option<NativeSystemConfig>,
}

/// The rollup configuration, in the registry's native shape.
#[derive(Clone, Debug, PartialEq, Eq)]
pub struct NativeRollupConfig {
    pub genesis: ChainGenesis,
    pub block_time: u64,
    pub max_sequencer_drift: u64,
    pub seq_window_size: u64,
    pub channel_timeout: u64,
    pub granite_channel_timeout: u64,
    pub l1_chain_id: u64,
    pub l2_chain_id: u64,
    pub base_fee_params: BaseFeeParams,
    pub canyon_base_fee_params: Option<BaseFeeParams>,
    pub regolith_time: Option<u64>,
    pub canyon_time: Option<u64>,
    pub delta_time: Option<u64>,
    pub ecotone_time: Option<u64>,
    pub fjord_time: Option<u64>,
    pub granite_time: Option<u64>,
    pub holocene_time: Option<u64>,
    pub batch_inbox_address: [u8; 20],
    pub deposit_contract_address: [u8; 20],
    pub l1_system_config_address: [u8; 20],
    pub protocol_versions_address: [u8; 20],
    pub superchain_config_address: Option<[u8; 20]>,
    pub blobs_enabled_l1_timestamp: Option<u64>,
    pub da_challenge_address: Option<[u8; 20]>,
}

/// The channel timeout from Granite on that the native shape gets when the
/// portable shape does not carry one.
pub const GRANITE_CHANNEL_TIMEOUT: u64 = 50;

/// The base-fee parameters of OP Mainnet before Canyon.
pub open spec fn optimism_params() -> BaseFeeParams {
    BaseFeeParams { max_change_denominator: 50, elasticity_multiplier: 6 }
}

/// The base-fee parameters of OP Mainnet from Canyon on.
pub open spec fn optimism_canyon_params() -> BaseFeeParams {
    BaseFeeParams { max_change_denominator: 250, elasticity_multiplier: 6 }
}

/// Relies on `alloy_eips::eip1559::BaseFeeParams::optimism`: denominator 50,
/// elasticity 6.
#[verifier::external_body]
fn optimism_base_fee_params() -> (r: BaseFeeParams)
    ensures
        r == optimism_params(),
{
    let p = alloy_eips::eip1559::BaseFeeParams::optimism();
    BaseFeeParams {
        max_change_denominator: p.max_change_denominator,
        elasticity_multiplier: p.elasticity_multiplier,
    }
}

/// Relies on `alloy_eips::eip1559::BaseFeeParams::optimism_canyon`:
/// denominator 250, elasticity 6.
#[verifier::external_body]
fn optimism_canyon_base_fee_params() -> (r: BaseFeeParams)
    ensures
        r == optimism_canyon_params(),
{
    let p = alloy_eips::eip1559::BaseFeeParams::optimism_canyon();
    BaseFeeParams {
        max_change_denominator: p.max_change_denominator,
        elasticity_multiplier: p.elasticity_multiplier,
    }
}

/// The address whose twenty bytes are zero.
pub open spec fn zero_address() -> [u8; 20] {
    vstd::array::spec_array_fill_for_copy_type::<u8, 20>(0u8)
}

/// Whether the portable shape of `n` can be taken: it needs the genesis
/// system configuration.
pub open spec fn has_system_config(n: NativeRollupConfig) -> bool {
    n.genesis.system_config is Some
}

/// Whether the native shape of `c` can be taken: chain ids must fit 64 bits.
pub open spec fn chain_ids_fit(c: RollupConfig) -> bool {
    (c.l1_chain_id is Some ==> c.l1_chain_id->Some_0 <= u64::MAX)
        && (c.l2_chain_id is Some ==> c.l2_chain_id->Some_0 <= u64::MAX)
}

/// A portable chain id in the native shape: absent means zero.
pub open spec fn chain_id_or_zero(id: Option<u128>) -> u64 {
    match id {
        Some(v) => v as u64,
        None => 0,
    }
}

/// The portable shape of a native configuration: internal-only fields are
/// dropped, the system configuration is flattened, chain ids are carried as
/// present, and interop is not scheduled.
pub open spec fn portable_of(n: NativeRollupConfig) -> RollupConfig {
    let s = n.genesis.system_config->Some_0;
    RollupConfig {
        genesis: Genesis {
            l1: n.genesis.l1,
            l2: n.genesis.l2,
            l2_time: n.genesis.l2_time,
            system_config: SystemConfig {
                batcher_addr: s.batcher_address,
                overhead: s.overhead,
                scalar: s.scalar,
                gas_limit: s.gas_limit,
            },
        },
        block_time: n.block_time,
        max_sequencer_drift: n.max_sequencer_drift,
        seq_window_size: n.seq_window_size,
        channel_timeout_bedrock: n.channel_timeout,
        l1_chain_id: Some(n.l1_chain_id as u128),
        l2_chain_id: Some(n.l2_chain_id as u128),
        regolith_time: n.regolith_time,
        canyon_time: n.canyon_time,
        delta_time: n.delta_time,
        ecotone_time: n.ecotone_time,
        fjord_time: n.fjord_time,
        granite_time: n.granite_time,
        interop_time: None,
        batch_inbox_address: n.batch_inbox_address,
        deposit_contract_address: n.deposit_contract_address,
        l1_system_config_address: n.l1_system_config_address,
        protocol_versions_address: Some(n.protocol_versions_address),
        da_challenge_address: n.da_challenge_address,
    }
}

/// The native shape of a portable configuration: fields that the portable
/// shape does not carry take their defaults (OP Mainnet base-fee parameters,
/// the Granite channel timeout, no extra data, nothing scheduled after
/// Granite), an absent chain id is zero and an absent protocol-versions
/// address is the zero address.
pub open spec fn native_of(c: RollupConfig) -> NativeRollupConfig {
    let s = c.genesis.system_config;
    NativeRollupConfig {
        genesis: ChainGenesis {
            l1: c.genesis.l1,
            l2: c.genesis.l2,
            l2_time: c.genesis.l2_time,
            extra_data: None,
            system_config: Some(
                NativeSystemConfig {
                    batcher_address: s.batcher_addr,
                    overhead: s.overhead,
                    scalar: s.scalar,
                    gas_limit: s.gas_limit,
                    base_fee_scalar: None,
                    blob_base_fee_scalar: None,
                },
            ),
        },
        block_time: c.block_time,
        max_sequencer_drift: c.max_sequencer_drift,
        seq_window_size: c.seq_window_size,
        channel_timeout: c.channel_timeout_bedrock,
        granite_channel_timeout: GRANITE_CHANNEL_TIMEOUT,
        l1_chain_id: chain_id_or_zero(c.l1_chain_id),
        l2_chain_id: chain_id_or_zero(c.l2_chain_id),
        base_fee_params: optimism_params(),
        canyon_base_fee_params: Some(optimism_canyon_params()),
        regolith_time: c.regolith_time,
        canyon_time: c.canyon_time,
        delta_time: c.delta_time,
        ecotone_time: c.ecotone_time,
        fjord_time: c.fjord_time,
        granite_time: c.granite_time,
        holocene_time: None,
        batch_inbox_address: c.batch_inbox_address,
        deposit_contract_address: c.deposit_contract_address,
        l1_system_config_address: c.l1_system_config_address,
        protocol_versions_address: match c.protocol_versions_address {
            Some(a) => a,
            None => zero_address(),
        },
        superchain_config_address: None,
        blobs_enabled_l1_timestamp: None,
        da_challenge_address: c.da_challenge_address,
    }
}

fn chain_id_to_native(id: Option<u128>) -> (r: u64)
    requires
        id is Some ==> id->Some_0 <= u64::MAX,
    ensures
        r == chain_id_or_zero(id),
{
    match id {
        Some(v) => v as u64,
        None => 0,
    }
}

impl RollupConfig {
    /// The portable shape of a native configuration.
    pub fn from_native(cfg: &NativeRollupConfig) -> (r: RollupConfig)
        requires
            has_system_config(*cfg),
        ensures
            r == portable_of(*cfg),
    {
        let s = cfg.genesis.system_config.unwrap();
        RollupConfig {
            genesis: Genesis {
                l1: cfg.genesis.l1,
                l2: cfg.genesis.l2,
                l2_time: cfg.genesis.l2_time,
                system_config: SystemConfig {
                    batcher_addr: s.batcher_address,
                    overhead: s.overhead,
                    scalar: s.scalar,
                    gas_limit: s.gas_limit,
                },
            },
            block_time: cfg.block_time,
            max_sequencer_drift: cfg.max_sequencer_drift,
            seq_window_size: cfg.seq_window_size,
            channel_timeout_bedrock: cfg.channel_timeout,
            l1_chain_id: Some(cfg.l1_chain_id as u128),
            l2_chain_id: Some(cfg.l2_chain_id as u128),
            regolith_time: cfg.regolith_time,
            canyon_time: cfg.canyon_time,
            delta_time: cfg.delta_time,
            ecotone_time: cfg.ecotone_time,
            fjord_time: cfg.fjord_time,
            granite_time: cfg.granite_time,
            interop_time: None,
            batch_inbox_address: cfg.batch_inbox_address,
            deposit_contract_address: cfg.deposit_contract_address,
            l1_system_config_address: cfg.l1_system_config_address,
            protocol_versions_address: Some(cfg.protocol_versions_address),
            da_challenge_address: cfg.da_challenge_address,
        }
    }

    /// The native shape of this configuration.
    pub fn to_native(&self) -> (r: NativeRollupConfig)
        requires
            chain_ids_fit(*self),
        ensures
            r == native_of(*self),
    {
        let s = self.genesis.system_config;
        NativeRollupConfig {
            genesis: ChainGenesis {
                l1: self.genesis.l1,
                l2: self.genesis.l2,
                l2_time: self.genesis.l2_time,
                extra_data: None,
                system_config: Some(
                    NativeSystemConfig {
                        batcher_address: s.batcher_addr,
                        overhead: s.overhead,
                        scalar: s.scalar,
                        gas_limit: s.gas_limit,
                        base_fee_scalar: None,
                        blob_base_fee_scalar: None,
                    },
                ),
            },
            block_time: self.block_time,
            max_sequencer_drift: self.max_sequencer_drift,
            seq_window_size: self.seq_window_size,
            channel_timeout: self.channel_timeout_bedrock,
            granite_channel_timeout: GRANITE_CHANNEL_TIMEOUT,
            l1_chain_id: chain_id_to_native(self.l1_chain_id),
            l2_chain_id: chain_id_to_native(self.l2_chain_id),
            base_fee_params: optimism_base_fee_params(),
            canyon_base_fee_params: Some(optimism_canyon_base_fee_params()),
            regolith_time: self.regolith_time,
            canyon_time: self.canyon_time,
            delta_time: self.delta_time,
            ecotone_time: self.ecotone_time,
            fjord_time: self.fjord_time,
            granite_time: self.granite_time,
            holocene_time: None,
            batch_inbox_address: self.batch_inbox_address,
            deposit_contract_address: self.deposit_contract_address,
            l1_system_config_address: self.l1_system_config_address,
            protocol_versions_address: match self.protocol_versions_address {
                Some(a) => a,
                None => [0u8; 20],
            },
            superchain_config_address: None,
            blobs_enabled_l1_timestamp: None,
            da_challenge_address: self.da_challenge_address,
        }
    }
}

/// Taking the portable shape of a native configuration and then its native
/// shape again keeps every field that the portable shape carries (genesis,
/// timing, chain ids, fork times up to Granite, contract addresses); the
/// others take their documented defaults.
pub proof fn lemma_native_round_trip(n: NativeRollupConfig)
    requires
        has_system_config(n),
    ensures
        chain_ids_fit(portable_of(n)),
        native_of(portable_of(n)) == (NativeRollupConfig {
            genesis: ChainGenesis {
                extra_data: None,
                system_config: Some(
                    NativeSystemConfig {
                        base_fee_scalar: None,
                        blob_base_fee_scalar: None,
                        ..n.genesis.system_config->Some_0
                    },
                ),
                ..n.genesis
            },
            granite_channel_timeout: GRANITE_CHANNEL_TIMEOUT,
            base_fee_params: optimism_params(),
            canyon_base_fee_params: Some(optimism_canyon_params()),
            holocene_time: None,
            superchain_config_address: None,
            blobs_enabled_l1_timestamp: None,
            ..n
        }),
{
}

/// Taking the native shape of a portable configuration and then its portable
/// shape again keeps it, except that absent chain ids and protocol-versions
/// address come back as zero and interop is not scheduled.
pub proof fn lemma_portable_round_trip(c: RollupConfig)
    requires
        chain_ids_fit(c),
    ensures
        has_system_config(native_of(c)),
        portable_of(native_of(c)) == (RollupConfig {
            l1_chain_id: Some(chain_id_or_zero(c.l1_chain_id) as u128),
            l2_chain_id: Some(chain_id_or_zero(c.l2_chain_id) as u128),
            interop_time: None,
            protocol_versions_address: Some(native_of(c).protocol_versions_address),
            ..c
        }),
{
}

} // verus!
