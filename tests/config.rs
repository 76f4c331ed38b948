use opfp::config::{
    BaseFeeParams, BlockId, ChainGenesis, NativeRollupConfig, NativeSystemConfig, RollupConfig,
};

fn native() -> NativeRollupConfig {
    NativeRollupConfig {
        genesis: ChainGenesis {
            l1: BlockId { hash: [0x11; 32], number: 17_422_590 },
            l2: BlockId { hash: [0x22; 32], number: 105_235_063 },
            l2_time: 1_686_068_903,
            extra_data: Some(vec![1, 2, 3]),
            system_config: Some(NativeSystemConfig {
                batcher_address: [0x6f; 20],
                overhead: [0xbc; 32],
                scalar: [0x0a; 32],
                gas_limit: 30_000_000,
                base_fee_scalar: Some(7),
                blob_base_fee_scalar: Some(8),
            }),
        },
        block_time: 2,
        max_sequencer_drift: 600,
        seq_window_size: 3600,
        channel_timeout: 300,
        granite_channel_timeout: 77,
        l1_chain_id: 1,
        l2_chain_id: 10,
        base_fee_params: BaseFeeParams { max_change_denominator: 1, elasticity_multiplier: 1 },
        canyon_base_fee_params: None,
        regolith_time: Some(0),
        canyon_time: Some(1_704_992_401),
        delta_time: Some(1_708_560_000),
        ecotone_time: Some(1_710_374_401),
        fjord_time: Some(1_720_627_201),
        granite_time: Some(1_726_070_401),
        holocene_time: Some(1_800_000_000),
        batch_inbox_address: [0xff; 20],
        deposit_contract_address: [0xbe; 20],
        l1_system_config_address: [0x22; 20],
        protocol_versions_address: [0x8e; 20],
        superchain_config_address: Some([0x95; 20]),
        blobs_enabled_l1_timestamp: Some(5),
        da_challenge_address: Some([0xda; 20]),
    }
}

#[test]
fn native_to_portable_carries_fields() {
    let p = RollupConfig::from_native(&native());
    assert_eq!(p.genesis.l1, BlockId { hash: [0x11; 32], number: 17_422_590 });
    assert_eq!(p.genesis.system_config.batcher_addr, [0x6f; 20]);
    assert_eq!(p.genesis.system_config.overhead, [0xbc; 32]);
    assert_eq!(p.channel_timeout_bedrock, 300);
    assert_eq!(p.l1_chain_id, Some(1));
    assert_eq!(p.l2_chain_id, Some(10));
    assert_eq!(p.granite_time, Some(1_726_070_401));
    assert_eq!(p.interop_time, None);
    assert_eq!(p.protocol_versions_address, Some([0x8e; 20]));
    assert_eq!(p.da_challenge_address, Some([0xda; 20]));
}

#[test]
fn native_portable_native_round_trip_fills_defaults() {
    let n = native();
    let back = RollupConfig::from_native(&n).to_native();
    let mut expected = native();
    expected.genesis.extra_data = None;
    let sys = expected.genesis.system_config.as_mut().unwrap();
    sys.base_fee_scalar = None;
    sys.blob_base_fee_scalar = None;
    expected.granite_channel_timeout = 50;
    expected.base_fee_params = BaseFeeParams { max_change_denominator: 50, elasticity_multiplier: 6 };
    expected.canyon_base_fee_params =
        Some(BaseFeeParams { max_change_denominator: 250, elasticity_multiplier: 6 });
    expected.holocene_time = None;
    expected.superchain_config_address = None;
    expected.blobs_enabled_l1_timestamp = None;
    assert_eq!(back, expected);
}

#[test]
fn portable_defaults_for_absent_fields() {
    let p = RollupConfig::default();
    let n = p.to_native();
    assert_eq!(n.l1_chain_id, 0);
    assert_eq!(n.l2_chain_id, 0);
    assert_eq!(n.protocol_versions_address, [0; 20]);
    assert_eq!(n.base_fee_params, BaseFeeParams { max_change_denominator: 50, elasticity_multiplier: 6 });
    let again = RollupConfig::from_native(&n);
    assert_eq!(again.l1_chain_id, Some(0));
    assert_eq!(again.protocol_versions_address, Some([0; 20]));
    assert_eq!(again.block_time, p.block_time);
}
