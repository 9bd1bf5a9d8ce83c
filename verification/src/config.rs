//! The configuration of one run. A configuration is made once and read
//! thereafter: its fields are set by the constructors alone.

use vstd::prelude::*;

verus! {

/// The named machine layouts. A layout fixes which builtins the machine
/// offers.
#[derive(Clone, Copy, Debug, PartialEq, Eq, Structural)]
pub enum Layout {
    Plain,
    Small,
    Dex,
    Recursive,
    Starknet,
    StarknetWithKeccak,
    RecursiveLargeOutput,
    RecursiveWithPoseidon,
    AllSolidity,
    AllCairo,
    Dynamic,
    AllCairoStwo,
}

/// What controls a single run.
#[derive(Clone, Copy, Debug, PartialEq, Eq, Structural)]
pub struct RunConfig {
    layout: Layout,
    allow_missing_builtins: bool,
    relocate_memory: bool,
    trace_enabled: bool,
    serialize_output: bool,
    proof_mode: bool,
}

impl RunConfig {
    /// A configuration with every setting given.
    pub fn new(
        layout: Layout,
        allow_missing_builtins: bool,
        relocate_memory: bool,
        trace_enabled: bool,
        serialize_output: bool,
        proof_mode: bool,
    ) -> (r: RunConfig)
        ensures
            r.layout() == layout,
            r.allow_missing_builtins() == allow_missing_builtins,
            r.relocate_memory() == relocate_memory,
            r.trace_enabled() == trace_enabled,
            r.serialize_output() == serialize_output,
            r.proof_mode() == proof_mode,
    {
        RunConfig {
            layout,
            allow_missing_builtins,
            relocate_memory,
            trace_enabled,
            serialize_output,
            proof_mode,
        }
    }

    /// The configuration of a call from the web front end: every builtin of
    /// Cairo, memory relocated, the trace recorded and the output rendered
    /// in structured form.
    pub fn for_call() -> (r: RunConfig)
        ensures
            r.layout() == Layout::AllCairo,
            !r.allow_missing_builtins(),
            r.relocate_memory(),
            r.trace_enabled(),
            r.serialize_output(),
            !r.proof_mode(),
    {
        RunConfig::new(Layout::AllCairo, false, true, true, true, false)
    }

    /// The configuration of a run of a loaded executable: every builtin of
    /// Cairo, missing builtins tolerated, and memory relocated and the trace
    /// recorded where the output is wanted in the standard form.
    pub fn for_executable(proof_mode: bool, standard_output: bool) -> (r: RunConfig)
        ensures
            r.layout() == Layout::AllCairo,
            r.allow_missing_builtins(),
            r.relocate_memory() == standard_output,
            r.trace_enabled() == standard_output,
            !r.serialize_output(),
            r.proof_mode() == proof_mode,
    {
        RunConfig::new(Layout::AllCairo, true, standard_output, standard_output, false, proof_mode)
    }

    /// The machine layout.
    pub closed spec fn layout(&self) -> Layout {
        self.layout
    }

    /// Whether a program may require builtins that the layout lacks.
    pub closed spec fn allow_missing_builtins(&self) -> bool {
        self.allow_missing_builtins
    }

    /// Whether memory is flattened after the run.
    pub closed spec fn relocate_memory(&self) -> bool {
        self.relocate_memory
    }

    /// Whether every step of the run is recorded.
    pub closed spec fn trace_enabled(&self) -> bool {
        self.trace_enabled
    }

    /// Whether the output is also rendered in structured form.
    pub closed spec fn serialize_output(&self) -> bool {
        self.serialize_output
    }

    /// Whether the run is shaped for a later proof.
    pub closed spec fn proof_mode(&self) -> bool {
        self.proof_mode
    }

    /// Whether the trace is left unpadded: exactly in proof mode.
    pub open spec fn disable_trace_padding(&self) -> bool {
        self.proof_mode()
    }

    /// The machine layout.
    pub fn machine_layout(&self) -> (r: Layout)
        ensures
            r == self.layout(),
    {
        self.layout
    }

    /// Whether a program may require builtins that the layout lacks.
    pub fn allows_missing_builtins(&self) -> (r: bool)
        ensures
            r == self.allow_missing_builtins(),
    {
        self.allow_missing_builtins
    }

    /// Whether memory is flattened after the run.
    pub fn relocates_memory(&self) -> (r: bool)
        ensures
            r == self.relocate_memory(),
    {
        self.relocate_memory
    }

    /// Whether every step of the run is recorded.
    pub fn records_trace(&self) -> (r: bool)
        ensures
            r == self.trace_enabled(),
    {
        self.trace_enabled
    }

    /// Whether the output is also rendered in structured form.
    pub fn serializes_output(&self) -> (r: bool)
        ensures
            r == self.serialize_output(),
    {
        self.serialize_output
    }

    /// Whether the run is shaped for a later proof.
    pub fn in_proof_mode(&self) -> (r: bool)
        ensures
            r == self.proof_mode(),
    {
        self.proof_mode
    }

    /// Whether the trace is left unpadded.
    pub fn disables_trace_padding(&self) -> (r: bool)
        ensures
            r == self.disable_trace_padding(),
    {
        self.proof_mode
    }
}

} // verus!
