//! Errors of resolving what a fault-proof run needs.

use vstd::prelude::*;

verus! {

/// Why the inputs of a run could not be resolved.
#[derive(Clone, Copy, Debug, PartialEq, Eq, Structural)]
pub enum ResolveError {
    /// Neither a genesis nor a chain name identifies the chain.
    MissingChainIdentity,
    /// The registry has no rollup configuration for this L2 chain id.
    UnknownChain(u64),
    /// An emulator was asked for without its state file.
    MissingEmulatorState,
    /// An emulator was asked for without its metadata file.
    MissingEmulatorMeta,
}

} // verus!
