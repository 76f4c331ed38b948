//! The two commands of the tool, and the decisions each makes: building a
//! fixture from a run of the fault-proof program against live nodes, and
//! replaying a fixture, optionally inside the instruction-level emulator.

use vstd::prelude::*;
use crate::config::{chain_ids_fit, has_system_config, native_of, portable_of, NativeRollupConfig, RollupConfig};
use crate::error::ResolveError;
use crate::fixture::{ChainDefinition, FaultProofInputs, Genesis};
use crate::hex_text::encode_hex_prefixed;
use crate::program::{chain_args, decimal_of, hash_arg, push_chain_args, string_views};
use crate::rollup_node::OutputResponse;

verus! {

/// Builds a fault-proof fixture for an L2 block from a run of the fault-proof
/// program against live L1, L2, beacon and rollup nodes.
pub struct FromOpProgram {
    /// The path of the fault-proof program.
    pub op_program: String,
    /// The L2 block whose output is claimed.
    pub l2_block: u64,
    /// An L1 block that can derive the L2 block; searched for when absent.
    pub l1_block: Option<u64>,
    pub l1_rpc_url: String,
    pub l2_rpc_url: String,
    pub beacon_url: String,
    pub rollup_url: String,
    pub chain_name: Option<String>,
    /// A local rollup configuration file; the registry is asked when absent.
    pub rollup_path: Option<String>,
    /// A genesis file; with it the chain is given in full.
    pub genesis_path: Option<String>,
    /// Where the fixture is written.
    pub output: String,
    /// Verbosity, 0 to 4.
    pub v: u8,
}

/// Replays a fault-proof fixture.
pub struct RunOpProgram {
    /// The path of the fault-proof program.
    pub op_program: String,
    /// The fixture file.
    pub fixture: String,
    /// The instruction-level emulator to run the program in, if any.
    pub cannon: Option<String>,
    pub cannon_state: Option<String>,
    pub cannon_meta: Option<String>,
    /// Where the statistics of the run are written, if anywhere.
    pub output: Option<String>,
    /// Verbosity, 0 to 4.
    pub v: u8,
}

/// The command that the tool runs.
pub enum Commands {
    FromOpProgram(FromOpProgram),
    RunOpProgram(RunOpProgram),
}

/// The tool's command line.
pub struct Cli {
    pub command: Commands,
}

/// How much the tool logs, from least to most.
#[derive(Clone, Copy, Debug, PartialEq, Eq, Structural)]
pub enum LogLevel {
    Error,
    Warn,
    Info,
    Debug,
    Trace,
}

/// The verbosity of a command.
pub open spec fn verbosity_of(c: Commands) -> u8 {
    match c {
        Commands::FromOpProgram(cmd) => cmd.v,
        Commands::RunOpProgram(cmd) => cmd.v,
    }
}

/// The most detailed level logged at a verbosity: errors at 0, then
/// warnings, information, debugging, and everything from 4 on.
pub open spec fn level_of(v: u8) -> LogLevel {
    if v == 0 {
        LogLevel::Error
    } else if v == 1 {
        LogLevel::Warn
    } else if v == 2 {
        LogLevel::Info
    } else if v == 3 {
        LogLevel::Debug
    } else {
        LogLevel::Trace
    }
}

impl Cli {
    /// The verbosity of the command.
    pub fn v(&self) -> (r: u8)
        ensures
            r == verbosity_of(self.command),
    {
        match &self.command {
            Commands::FromOpProgram(cmd) => cmd.v,
            Commands::RunOpProgram(cmd) => cmd.v,
        }
    }

    /// The most detailed level to log.
    pub fn log_level(&self) -> (r: LogLevel)
        ensures
            r == level_of(verbosity_of(self.command)),
    {
        let v = self.v();
        if v == 0 {
            LogLevel::Error
        } else if v == 1 {
            LogLevel::Warn
        } else if v == 2 {
            LogLevel::Info
        } else if v == 3 {
            LogLevel::Debug
        } else {
            LogLevel::Trace
        }
    }
}

/// The arguments of the fault-proof program when it builds a fixture: the
/// chain, the nodes, the claim, and the directory it writes preimages to.
pub open spec fn fixture_run_args(
    cmd: FromOpProgram,
    inputs: FaultProofInputs,
    input_dir: Seq<char>,
    output_dir: Seq<char>,
) -> Seq<Seq<char>> {
    chain_args(inputs.chain_definition, input_dir) + seq![
        "--l1"@,
        cmd.l1_rpc_url@,
        "--l2"@,
        cmd.l2_rpc_url@,
        "--l1.beacon"@,
        cmd.beacon_url@,
        "--l1.head"@,
        hash_arg(inputs.l1_head),
        "--l2.head"@,
        hash_arg(inputs.l2_head),
        "--l2.outputroot"@,
        hash_arg(inputs.l2_output_root),
        "--l2.blocknumber"@,
        decimal_of(inputs.l2_block_number as nat),
        "--l2.claim"@,
        hash_arg(inputs.l2_claim),
        "--log.format"@,
        "terminal"@,
        "--l2.custom"@,
        "--datadir"@,
        output_dir,
        "--data.format"@,
        "directory"@,
    ]
}

/// The inputs of a fixture: the claim is the output at the target block, and
/// the agreed starting point is the output and block hash of its parent.
pub open spec fn inputs_of(
    claim: OutputResponse,
    parent: OutputResponse,
    l1_head: [u8; 32],
    chain_definition: ChainDefinition,
) -> FaultProofInputs {
    FaultProofInputs {
        l1_head,
        l2_head: parent.block_ref.hash,
        l2_claim: claim.output_root,
        l2_output_root: parent.output_root,
        l2_block_number: claim.block_ref.number,
        chain_definition,
    }
}

impl FromOpProgram {
    /// The arguments of the fault-proof program: a chain given in full is
    /// staged in `input_dir`, and preimages are written to `output_dir`.
    pub fn program_args(&self, inputs: &FaultProofInputs, input_dir: &str, output_dir: &str) -> (r:
        Vec<String>)
        ensures
            string_views(r@) == fixture_run_args(*self, *inputs, input_dir@, output_dir@),
    {
        let mut args: Vec<String> = Vec::new();
        push_chain_args(&mut args, &inputs.chain_definition, input_dir);
        let ghost head = args@;
        args.push(String::from_str("--l1"));
        args.push(self.l1_rpc_url.clone());
        args.push(String::from_str("--l2"));
        args.push(self.l2_rpc_url.clone());
        args.push(String::from_str("--l1.beacon"));
        args.push(self.beacon_url.clone());
        args.push(String::from_str("--l1.head"));
        args.push(encode_hex_prefixed(inputs.l1_head.as_slice()));
        args.push(String::from_str("--l2.head"));
        args.push(encode_hex_prefixed(inputs.l2_head.as_slice()));
        args.push(String::from_str("--l2.outputroot"));
        args.push(encode_hex_prefixed(inputs.l2_output_root.as_slice()));
        args.push(String::from_str("--l2.blocknumber"));
        args.push(crate::program::decimal(inputs.l2_block_number));
        args.push(String::from_str("--l2.claim"));
        args.push(encode_hex_prefixed(inputs.l2_claim.as_slice()));
        args.push(String::from_str("--log.format"));
        args.push(String::from_str("terminal"));
        args.push(String::from_str("--l2.custom"));
        args.push(String::from_str("--datadir"));
        args.push(String::from_str(output_dir));
        args.push(String::from_str("--data.format"));
        args.push(String::from_str("directory"));
        assert(string_views(args@) =~= fixture_run_args(*self, *inputs, input_dir@, output_dir@));
        args
    }

    /// The chain definition of the fixture: given in full when a genesis is
    /// supplied, else by the chain name, else there is none.
    pub fn chain_definition(&self, cfg: &RollupConfig, genesis: Option<Genesis>) -> (r: Result<
        ChainDefinition,
        ResolveError,
    >)
        requires
            genesis is Some ==> chain_ids_fit(*cfg),
        ensures
            genesis is Some ==> r == Ok::<ChainDefinition, ResolveError>(
                ChainDefinition::Unnamed(native_of(*cfg), genesis->Some_0),
            ),
            genesis is None && self.chain_name is Some ==> r == Ok::<ChainDefinition, ResolveError>(
                ChainDefinition::Named(self.chain_name->Some_0),
            ),
            genesis is None && self.chain_name is None ==> r == Err::<ChainDefinition, ResolveError>(
                ResolveError::MissingChainIdentity,
            ),
    {
        match genesis {
            Some(g) => Ok(ChainDefinition::Unnamed(cfg.to_native(), g)),
            None => match &self.chain_name {
                Some(name) => Ok(ChainDefinition::Named(name.clone())),
                None => Err(ResolveError::MissingChainIdentity),
            },
        }
    }

    /// The inputs of the fixture, from the outputs at the target block and at
    /// its parent.
    pub fn fault_proof_inputs(
        &self,
        claim: &OutputResponse,
        parent: &OutputResponse,
        l1_head: [u8; 32],
        chain_definition: ChainDefinition,
    ) -> (r: FaultProofInputs)
        ensures
            r == inputs_of(*claim, *parent, l1_head, chain_definition),
    {
        FaultProofInputs {
            l1_head,
            l2_head: parent.block_ref.hash,
            l2_claim: claim.output_root,
            l2_output_root: parent.output_root,
            l2_block_number: claim.block_ref.number,
            chain_definition,
        }
    }
}

/// The rollup configuration of an L2 chain from the registry's answer for its
/// chain id: the entry's portable shape, or `UnknownChain` when there is none.
pub fn registry_rollup_config(l2_chain_id: u64, entry: Option<&NativeRollupConfig>) -> (r: Result<
    RollupConfig,
    ResolveError,
>)
    requires
        entry is Some ==> has_system_config(*entry->Some_0),
    ensures
        entry is Some ==> r == Ok::<RollupConfig, ResolveError>(portable_of(*entry->Some_0)),
        entry is None ==> r == Err::<RollupConfig, ResolveError>(ResolveError::UnknownChain(l2_chain_id)),
{
    match entry {
        Some(cfg) => Ok(RollupConfig::from_native(cfg)),
        None => Err(ResolveError::UnknownChain(l2_chain_id)),
    }
}

/// The emulator files of a replay: the emulator, its state and its metadata.
pub struct EmulatorFiles {
    pub cannon: String,
    pub state: String,
    pub meta: String,
}

impl RunOpProgram {
    /// The emulator to replay in, if one is asked for; it needs its state
    /// and metadata files, the state checked first.
    pub fn emulator(&self) -> (r: Result<Option<EmulatorFiles>, ResolveError>)
        ensures
            self.cannon is None ==> r matches Ok(None),
            self.cannon is Some && self.cannon_state is None ==> r matches Err(
                ResolveError::MissingEmulatorState,
            ),
            self.cannon is Some && self.cannon_state is Some && self.cannon_meta is None ==> r matches Err(
                ResolveError::MissingEmulatorMeta,
            ),
            self.cannon is Some && self.cannon_state is Some && self.cannon_meta is Some ==> (r matches Ok(
                Some(f),
            ) && f.cannon == self.cannon->Some_0 && f.state == self.cannon_state->Some_0 && f.meta
                == self.cannon_meta->Some_0),
    {
        match &self.cannon {
            None => Ok(None),
            Some(cannon) => match &self.cannon_state {
                None => Err(ResolveError::MissingEmulatorState),
                Some(state) => match &self.cannon_meta {
                    None => Err(ResolveError::MissingEmulatorMeta),
                    Some(meta) => Ok(
                        Some(EmulatorFiles { cannon: cannon.clone(), state: state.clone(), meta: meta.clone() }),
                    ),
                },
            },
        }
    }
}

} // verus!
