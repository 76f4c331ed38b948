use opfp::fixture::{
    AccountState, ChainConfig, ChainDefinition, FaultProofFixture, FaultProofInputs,
    FaultProofStatus, Genesis, OptimismConfig,
};
use opfp::witness::WitnessStore;

fn sample_inputs() -> FaultProofInputs {
    FaultProofInputs {
        l1_head: [1; 32],
        l2_head: [2; 32],
        l2_claim: [3; 32],
        l2_output_root: [4; 32],
        l2_block_number: 1337,
        chain_definition: Default::default(),
    }
}

#[test]
fn test_serialize_fault_proof_status() {
    let statuses = vec![
        FaultProofStatus::Valid,
        FaultProofStatus::Invalid,
        FaultProofStatus::Panic,
        FaultProofStatus::Unfinished,
        FaultProofStatus::Unknown,
    ];

    for status in statuses {
        let serialized_status =
            serde_json::to_string(&u8::from(status)).expect("failed to serialize status");
        let byte = serde_json::from_str::<u8>(&serialized_status)
            .expect("failed to deserialize status");
        let deserialized_status =
            FaultProofStatus::try_from(byte).expect("failed to deserialize status");
        assert_eq!(status, deserialized_status);
    }
}

#[test]
fn status_bytes_are_stable() {
    assert_eq!(u8::from(FaultProofStatus::Valid), 0);
    assert_eq!(u8::from(FaultProofStatus::Invalid), 1);
    assert_eq!(u8::from(FaultProofStatus::Panic), 2);
    assert_eq!(u8::from(FaultProofStatus::Unfinished), 3);
    assert_eq!(u8::from(FaultProofStatus::Unknown), 4);
}

#[test]
fn out_of_range_status_bytes_read_as_unknown() {
    for byte in 4..=255u8 {
        assert_eq!(FaultProofStatus::try_from(byte), Ok(FaultProofStatus::Unknown));
    }
    assert_eq!(FaultProofStatus::try_from(3), Ok(FaultProofStatus::Unfinished));
}

#[test]
fn default_status_is_valid() {
    assert_eq!(FaultProofStatus::default(), FaultProofStatus::Valid);
}

#[test]
fn default_chain_definition_is_base_mainnet() {
    assert_eq!(ChainDefinition::default(), ChainDefinition::Named("base-mainnet".to_string()));
}

#[test]
fn fixture_scenario_holds_its_inputs() {
    let fixture = FaultProofFixture {
        inputs: sample_inputs(),
        expected_status: FaultProofStatus::Valid,
        witness_data: WitnessStore::new(),
    };
    assert_eq!(fixture.inputs, sample_inputs());
    assert_eq!(fixture.inputs.l2_block_number, 1337);
    assert_eq!(fixture.expected_status, FaultProofStatus::Valid);
    assert!(fixture.witness_data.entries().is_empty());
    assert!(fixture.witness_data.stage().is_empty());
}

#[test]
fn unnamed_chain_carries_a_full_genesis() {
    let mut genesis = Genesis::default();
    genesis.config = ChainConfig {
        chain_id: 8453,
        optimism: Some(OptimismConfig {
            eip1559_elasticity: 6,
            eip1559_denominator: 50,
            eip1559_denominator_canyon: Some(250),
        }),
        ..ChainConfig::default()
    };
    genesis.alloc.push(([7; 20], AccountState { balance: Some([9; 32]), ..AccountState::default() }));
    let cfg = opfp::config::RollupConfig::default();
    let def = ChainDefinition::Unnamed(cfg.to_native(), genesis.clone());
    match def {
        ChainDefinition::Unnamed(_, g) => assert_eq!(g, genesis),
        ChainDefinition::Named(_) => panic!("expected an unnamed chain"),
    }
}
