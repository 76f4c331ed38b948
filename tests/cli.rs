use opfp::cli::{registry_rollup_config, Cli, Commands, FromOpProgram, LogLevel, RunOpProgram};
use opfp::config::{BlockId, RollupConfig};
use opfp::error::ResolveError;
use opfp::fixture::{ChainDefinition, FaultProofInputs, Genesis};
use opfp::rollup_node::{L2BlockRef, OutputResponse};

fn from_cmd(chain_name: Option<&str>) -> FromOpProgram {
    FromOpProgram {
        op_program: "/bin/op-program".to_string(),
        l2_block: 1337,
        l1_block: None,
        l1_rpc_url: "http://l1".to_string(),
        l2_rpc_url: "http://l2".to_string(),
        beacon_url: "http://beacon".to_string(),
        rollup_url: "http://rollup".to_string(),
        chain_name: chain_name.map(|s| s.to_string()),
        rollup_path: None,
        genesis_path: None,
        output: "fixture.json".to_string(),
        v: 2,
    }
}

fn run_cmd(cannon: Option<&str>, state: Option<&str>, meta: Option<&str>, v: u8) -> RunOpProgram {
    RunOpProgram {
        op_program: "/bin/op-program".to_string(),
        fixture: "fixture.json".to_string(),
        cannon: cannon.map(|s| s.to_string()),
        cannon_state: state.map(|s| s.to_string()),
        cannon_meta: meta.map(|s| s.to_string()),
        output: None,
        v,
    }
}

fn output(hash: u8, number: u64, root: u8) -> OutputResponse {
    OutputResponse {
        version: [0; 32],
        output_root: [root; 32],
        block_ref: L2BlockRef {
            hash: [hash; 32],
            number,
            parent_hash: [0; 32],
            timestamp: 0,
            l1_origin: BlockId { hash: [0; 32], number: 0 },
            sequence_number: 0,
        },
        withdrawal_storage_root: [0; 32],
        state_root: [0; 32],
    }
}

#[test]
fn verbosity_and_log_level() {
    let cli = Cli { command: Commands::FromOpProgram(from_cmd(None)) };
    assert_eq!(cli.v(), 2);
    assert_eq!(cli.log_level(), LogLevel::Info);
    let levels = [LogLevel::Error, LogLevel::Warn, LogLevel::Info, LogLevel::Debug, LogLevel::Trace, LogLevel::Trace];
    for (v, level) in levels.iter().enumerate() {
        let cli = Cli { command: Commands::RunOpProgram(run_cmd(None, None, None, v as u8)) };
        assert_eq!(cli.v(), v as u8);
        assert_eq!(cli.log_level(), *level);
    }
}

#[test]
fn chain_definition_choices() {
    let cfg = RollupConfig::default();
    let named = from_cmd(Some("op-mainnet"));
    assert_eq!(
        named.chain_definition(&cfg, None),
        Ok(ChainDefinition::Named("op-mainnet".to_string()))
    );
    assert_eq!(
        named.chain_definition(&cfg, Some(Genesis::default())),
        Ok(ChainDefinition::Unnamed(cfg.to_native(), Genesis::default()))
    );
    assert_eq!(
        from_cmd(None).chain_definition(&cfg, None),
        Err(ResolveError::MissingChainIdentity)
    );
}

#[test]
fn registry_lookup() {
    let native = RollupConfig::default().to_native();
    assert_eq!(registry_rollup_config(10, None), Err(ResolveError::UnknownChain(10)));
    assert_eq!(
        registry_rollup_config(10, Some(&native)),
        Ok(RollupConfig::from_native(&native))
    );
}

#[test]
fn inputs_from_outputs() {
    let cmd = from_cmd(Some("op-mainnet"));
    let claim = output(0xaa, 1337, 3);
    let parent = output(2, 1336, 4);
    let inputs = cmd.fault_proof_inputs(&claim, &parent, [1; 32], ChainDefinition::default());
    assert_eq!(
        inputs,
        FaultProofInputs {
            l1_head: [1; 32],
            l2_head: [2; 32],
            l2_claim: [3; 32],
            l2_output_root: [4; 32],
            l2_block_number: 1337,
            chain_definition: ChainDefinition::default(),
        }
    );
}

#[test]
fn fixture_run_args() {
    let cmd = from_cmd(Some("op-mainnet"));
    let inputs = FaultProofInputs {
        l1_head: [1; 32],
        l2_head: [2; 32],
        l2_claim: [3; 32],
        l2_output_root: [4; 32],
        l2_block_number: 7,
        chain_definition: ChainDefinition::Named("op-mainnet".to_string()),
    };
    let args = cmd.program_args(&inputs, "/in", "/out");
    let h = |b: u8| format!("0x{}", format!("{:02x}", b).repeat(32));
    let expected: Vec<String> = vec![
        "--network".to_string(),
        "op-mainnet".to_string(),
        "--l1".to_string(),
        "http://l1".to_string(),
        "--l2".to_string(),
        "http://l2".to_string(),
        "--l1.beacon".to_string(),
        "http://beacon".to_string(),
        "--l1.head".to_string(),
        h(1),
        "--l2.head".to_string(),
        h(2),
        "--l2.outputroot".to_string(),
        h(4),
        "--l2.blocknumber".to_string(),
        "7".to_string(),
        "--l2.claim".to_string(),
        h(3),
        "--log.format".to_string(),
        "terminal".to_string(),
        "--l2.custom".to_string(),
        "--datadir".to_string(),
        "/out".to_string(),
        "--data.format".to_string(),
        "directory".to_string(),
    ];
    assert_eq!(args, expected);
}

#[test]
fn emulator_files_needed() {
    assert!(matches!(run_cmd(None, None, None, 0).emulator(), Ok(None)));
    assert!(matches!(
        run_cmd(Some("c"), None, Some("m"), 0).emulator(),
        Err(ResolveError::MissingEmulatorState)
    ));
    assert!(matches!(
        run_cmd(Some("c"), Some("s"), None, 0).emulator(),
        Err(ResolveError::MissingEmulatorMeta)
    ));
    let files = run_cmd(Some("c"), Some("s"), Some("m"), 0).emulator().unwrap().unwrap();
    assert_eq!((files.cannon.as_str(), files.state.as_str(), files.meta.as_str()), ("c", "s", "m"));
}
