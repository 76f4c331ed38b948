//! Running the fault-proof program on a fixture: the files to stage, the
//! argument lists of the program and of the instruction-level emulator that
//! may wrap it, and the statistics a run yields.

use vstd::prelude::*;
use crate::config::{has_system_config, portable_of, RollupConfig};
use crate::fixture::{ChainDefinition, FaultProofFixture, FaultProofInputs};
use crate::hex_text::{encode_hex_prefixed, hex_digits, hex_of};
use crate::witness::{staged_views, views_of, StagedFile};

verus! {

/// Decimal text of `n`, without leading zeros.
pub open spec fn decimal_of(n: nat) -> Seq<char>
    decreases n,
{
    if n < 10 {
        seq![hex_digits()[n as int]]
    } else {
        decimal_of(n / 10) + seq![hex_digits()[(n % 10) as int]]
    }
}

/// The path `name` inside directory `dir`: a separator is put between them
/// unless `dir` is empty or already ends with one.
pub open spec fn joined(dir: Seq<char>, name: Seq<char>) -> Seq<char> {
    if dir.len() == 0 || dir.last() == '/' {
        dir + name
    } else {
        dir + seq!['/'] + name
    }
}

/// A 32-byte hash as a program argument: `0x` and 64 lowercase digits.
pub open spec fn hash_arg(h: [u8; 32]) -> Seq<char> {
    seq!['0', 'x'] + hex_of(h@)
}

/// The views of a sequence of strings.
pub open spec fn string_views(v: Seq<String>) -> Seq<Seq<char>> {
    Seq::new(v.len(), |i: int| v[i]@)
}

/// Relies on `u64`'s `ToString`: the decimal digits of the number.
#[verifier::external_body]
pub(crate) fn decimal(n: u64) -> (r: String)
    ensures
        r@ == decimal_of(n as nat),
{
    n.to_string()
}

/// Relies on `std::path::Path::join` on Unix, for a relative `name`: it is
/// adjoined to `dir`, with a `/` between them unless `dir` is empty or already
/// ends with one.
#[verifier::external_body]
fn join_path(dir: &str, name: &str) -> (r: String)
    requires
        name@.len() > 0,
        name@[0] != '/',
    ensures
        r@ == joined(dir@, name@),
{
    std::path::Path::new(dir).join(name).to_string_lossy().into_owned()
}

/// What a run of the fault-proof program measured. The counters after the
/// runtime come only from a run inside the instruction-level emulator.
#[derive(Clone, Copy, Debug, Default, PartialEq, Eq)]
pub struct ProgramStats {
    /// Wall-clock runtime in milliseconds.
    pub runtime: u128,
    pub instructions: Option<u64>,
    pub pages: Option<u64>,
    pub memory_used: Option<u64>,
    pub num_preimage_requests: Option<u64>,
    pub total_preimage_size: Option<u64>,
}

impl ProgramStats {
    /// The statistics of a plain run: its runtime alone.
    pub fn from_runtime(runtime: u128) -> (r: ProgramStats)
        ensures
            r == (ProgramStats {
                runtime,
                instructions: None,
                pages: None,
                memory_used: None,
                num_preimage_requests: None,
                total_preimage_size: None,
            }),
    {
        ProgramStats {
            runtime,
            instructions: None,
            pages: None,
            memory_used: None,
            num_preimage_requests: None,
            total_preimage_size: None,
        }
    }

    /// The statistics of an emulated run: its runtime, the emulator's step
    /// count when its final snapshot could be read, and the counters of its
    /// debug report.
    pub fn from_emulator(
        runtime: u128,
        steps: Option<u64>,
        pages: u64,
        memory_used: u64,
        num_preimage_requests: u64,
        total_preimage_size: u64,
    ) -> (r: ProgramStats)
        ensures
            r == (ProgramStats {
                runtime,
                instructions: steps,
                pages: Some(pages),
                memory_used: Some(memory_used),
                num_preimage_requests: Some(num_preimage_requests),
                total_preimage_size: Some(total_preimage_size),
            }),
    {
        ProgramStats {
            runtime,
            instructions: steps,
            pages: Some(pages),
            memory_used: Some(memory_used),
            num_preimage_requests: Some(num_preimage_requests),
            total_preimage_size: Some(total_preimage_size),
        }
    }
}

/// The file that the genesis of an unnamed chain is staged to.
pub open spec fn genesis_file_name() -> Seq<char> {
    "genesis.json"@
}

/// The file that the rollup configuration of an unnamed chain is staged to.
pub open spec fn rollup_config_file_name() -> Seq<char> {
    "rollup_config.json"@
}

/// The arguments that name the chain: its name, or the staged genesis and
/// rollup configuration files in `dir`.
pub open spec fn chain_args(chain: ChainDefinition, dir: Seq<char>) -> Seq<Seq<char>> {
    match chain {
        ChainDefinition::Named(name) => seq!["--network"@, name@],
        ChainDefinition::Unnamed(_, _) => seq![
            "--l2.genesis"@,
            joined(dir, genesis_file_name()),
            "--rollup.config"@,
            joined(dir, rollup_config_file_name()),
        ],
    }
}

/// The arguments of the fault-proof program for a fixture staged in `dir`.
pub open spec fn program_args(inputs: FaultProofInputs, dir: Seq<char>) -> Seq<Seq<char>> {
    seq![
        "--l1.head"@,
        hash_arg(inputs.l1_head),
        "--l2.head"@,
        hash_arg(inputs.l2_head),
        "--l2.outputroot"@,
        hash_arg(inputs.l2_output_root),
        "--l2.blocknumber"@,
        decimal_of(inputs.l2_block_number as nat),
        "--l2.claim"@,
        hash_arg(inputs.l2_claim),
        "--log.format"@,
        "terminal"@,
        "--datadir"@,
        dir,
        "--data.format"@,
        "directory"@,
    ] + chain_args(inputs.chain_definition, dir)
}

/// Pushes the arguments that name the chain.
pub(crate) fn push_chain_args(args: &mut Vec<String>, chain: &ChainDefinition, dir: &str)
    ensures
        string_views(final(args)@) == string_views(old(args)@) + chain_args(*chain, dir@),
{
    let ghost start = old(args)@;
    match chain {
        ChainDefinition::Named(name) => {
            args.push(String::from_str("--network"));
            args.push(name.clone());
        },
        ChainDefinition::Unnamed(_, _) => {
            proof {
                reveal_strlit("genesis.json");
                reveal_strlit("rollup_config.json");
            }
            args.push(String::from_str("--l2.genesis"));
            args.push(join_path(dir, "genesis.json"));
            args.push(String::from_str("--rollup.config"));
            args.push(join_path(dir, "rollup_config.json"));
        },
    }
    assert(string_views(args@) =~= string_views(start) + chain_args(*chain, dir@));
}

/// A run of the fault-proof program on a fixture, staged in `data_dir`.
pub struct OpProgramCommand {
    /// The path of the fault-proof program.
    pub op_program: String,
    pub fixture: FaultProofFixture,
    /// The directory that the fixture's inputs are staged in.
    pub data_dir: String,
}

impl OpProgramCommand {
    pub fn new(op_program: String, fixture: FaultProofFixture, data_dir: String) -> (r: OpProgramCommand)
        ensures
            r.op_program == op_program,
            r.fixture == fixture,
            r.data_dir == data_dir,
    {
        OpProgramCommand { op_program, fixture, data_dir }
    }

    /// The arguments of the fault-proof program.
    pub fn args(&self) -> (r: Vec<String>)
        ensures
            string_views(r@) == program_args(self.fixture.inputs, self.data_dir@),
    {
        let inputs = &self.fixture.inputs;
        let mut args: Vec<String> = Vec::new();
        args.push(String::from_str("--l1.head"));
        args.push(encode_hex_prefixed(inputs.l1_head.as_slice()));
        args.push(String::from_str("--l2.head"));
        args.push(encode_hex_prefixed(inputs.l2_head.as_slice()));
        args.push(String::from_str("--l2.outputroot"));
        args.push(encode_hex_prefixed(inputs.l2_output_root.as_slice()));
        args.push(String::from_str("--l2.blocknumber"));
        args.push(decimal(inputs.l2_block_number));
        args.push(String::from_str("--l2.claim"));
        args.push(encode_hex_prefixed(inputs.l2_claim.as_slice()));
        args.push(String::from_str("--log.format"));
        args.push(String::from_str("terminal"));
        args.push(String::from_str("--datadir"));
        args.push(self.data_dir.clone());
        args.push(String::from_str("--data.format"));
        args.push(String::from_str("directory"));
        let ghost head = args@;
        assert(string_views(head) =~= program_args(self.fixture.inputs, self.data_dir@).subrange(0, 16));
        push_chain_args(&mut args, &inputs.chain_definition, self.data_dir.as_str());
        assert(string_views(args@) =~= program_args(self.fixture.inputs, self.data_dir@));
        args
    }

    /// The path that the genesis of an unnamed chain is staged to.
    pub fn genesis_file(&self) -> (r: String)
        ensures
            r@ == joined(self.data_dir@, genesis_file_name()),
    {
        proof {
            reveal_strlit("genesis.json");
        }
        join_path(self.data_dir.as_str(), "genesis.json")
    }

    /// The path that the rollup configuration of an unnamed chain is staged to.
    pub fn rollup_config_file(&self) -> (r: String)
        ensures
            r@ == joined(self.data_dir@, rollup_config_file_name()),
    {
        proof {
            reveal_strlit("rollup_config.json");
        }
        join_path(self.data_dir.as_str(), "rollup_config.json")
    }

    /// The rollup configuration to stage, in its portable shape: there is one
    /// only for an unnamed chain.
    pub fn staged_rollup_config(&self) -> (r: Option<RollupConfig>)
        requires
            self.fixture.inputs.chain_definition matches ChainDefinition::Unnamed(n, _)
                ==> has_system_config(n),
        ensures
            match self.fixture.inputs.chain_definition {
                ChainDefinition::Named(_) => r is None,
                ChainDefinition::Unnamed(n, _) => r == Some(portable_of(n)),
            },
    {
        match &self.fixture.inputs.chain_definition {
            ChainDefinition::Named(_) => None,
            ChainDefinition::Unnamed(n, _) => Some(RollupConfig::from_native(n)),
        }
    }

    /// The witness files to stage, relative to the data directory: one per
    /// entry of the fixture's witness store.
    pub fn witness_files(&self) -> (r: Vec<StagedFile>)
        ensures
            views_of(r@) == staged_views(self.fixture.witness_data.entry_seq()),
    {
        self.fixture.witness_data.stage()
    }
}

/// The file the emulator writes its final state snapshot to.
pub open spec fn emulator_output_name() -> Seq<char> {
    "cannon-output.bin"@
}

/// The file the emulator writes its debug report to.
pub open spec fn emulator_debug_name() -> Seq<char> {
    "cannon-debug.json"@
}

/// A run of the fault-proof program inside the instruction-level emulator.
pub struct CannonCommand {
    /// The path of the emulator.
    pub cannon: String,
    /// The emulator's initial state file.
    pub state: String,
    /// The emulator's metadata file.
    pub meta: String,
    /// The file the emulator writes its final state to.
    pub output: String,
    /// The file the emulator writes its debug report to.
    pub debug: String,
    /// The program run that the emulator wraps.
    pub op_program: OpProgramCommand,
}

/// The arguments of the emulator: its own files, then the program and the
/// program's arguments, then `--server`.
pub open spec fn emulator_args(c: CannonCommand) -> Seq<Seq<char>> {
    seq![
        "run"@,
        "--info-at"@,
        "%10000000"@,
        "--input"@,
        c.state@,
        "--meta"@,
        c.meta@,
        "--output"@,
        c.output@,
        "--debug-info"@,
        c.debug@,
        "--"@,
        c.op_program.op_program@,
    ] + program_args(c.op_program.fixture.inputs, c.op_program.data_dir@) + seq!["--server"@]
}

impl CannonCommand {
    /// An emulated run whose output and debug files lie in the program run's
    /// data directory.
    pub fn new(cannon: String, state: String, meta: String, op_program: OpProgramCommand) -> (r:
        CannonCommand)
        ensures
            r.cannon == cannon,
            r.state == state,
            r.meta == meta,
            r.output@ == joined(op_program.data_dir@, emulator_output_name()),
            r.debug@ == joined(op_program.data_dir@, emulator_debug_name()),
            r.op_program == op_program,
    {
        proof {
            reveal_strlit("cannon-output.bin");
            reveal_strlit("cannon-debug.json");
        }
        let output = join_path(op_program.data_dir.as_str(), "cannon-output.bin");
        let debug = join_path(op_program.data_dir.as_str(), "cannon-debug.json");
        CannonCommand { cannon, state, meta, output, debug, op_program }
    }

    /// The arguments of the emulator.
    pub fn args(&self) -> (r: Vec<String>)
        ensures
            string_views(r@) == emulator_args(*self),
    {
        let mut args: Vec<String> = Vec::new();
        args.push(String::from_str("run"));
        args.push(String::from_str("--info-at"));
        args.push(String::from_str("%10000000"));
        args.push(String::from_str("--input"));
        args.push(self.state.clone());
        args.push(String::from_str("--meta"));
        args.push(self.meta.clone());
        args.push(String::from_str("--output"));
        args.push(self.output.clone());
        args.push(String::from_str("--debug-info"));
        args.push(self.debug.clone());
        args.push(String::from_str("--"));
        args.push(self.op_program.op_program.clone());
        let ghost head = args@;
        let mut rest = self.op_program.args();
        let ghost middle = rest@;
        args.append(&mut rest);
        args.push(String::from_str("--server"));
        assert(string_views(args@) =~= string_views(head) + string_views(middle) + seq!["--server"@]);
        assert(string_views(args@) =~= emulator_args(*self));
        args
    }
}

} // verus!
