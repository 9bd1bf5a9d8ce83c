//! The program loader: from the bytes of a compiled executable to a program
//! that the machine can run, with the entry point to start at.

use cairo_lang_executable::executable::{EntryPointKind as ArtifactKind, Executable, ExecutableEntryPoint};
use cairo_lang_runner::{build_hints_dict, CairoHintProcessor};
use cairo_vm::serde::deserialize_program::HintParams;
use cairo_vm::types::builtin_name::BuiltinName;
use cairo_vm::types::program::Program;
use cairo_vm::types::relocatable::MaybeRelocatable;
use cairo_vm::Felt252;
use std::collections::HashMap;
use vstd::prelude::*;
use vstd::string::*;

use crate::decimal::decimal_text;

verus! {

/// The deserialized form of a compiled executable, as the compiler's own
/// crate defines it. Nothing is known of what a value holds.
#[verifier::external_type_specification]
#[verifier::external_body]
pub struct ExExecutable(Executable);

/// A program in the form that the machine runs. Nothing is known of what a
/// value holds.
#[verifier::external_type_specification]
#[verifier::external_body]
pub struct ExProgram(Program);

/// The name of a builtin of the machine. Nothing is known of what a value
/// holds.
#[verifier::external_type_specification]
#[verifier::external_body]
pub struct ExBuiltinName(BuiltinName);

/// One hint as the machine's program table holds it. Nothing is known of
/// what a value holds.
#[verifier::external_type_specification]
#[verifier::external_body]
pub struct ExHintParams(HintParams);

/// The hint processor of the compiler's runner: it owns the lookup from
/// hint code to hint, the arguments of the call and what a run records.
/// Nothing is known of what a value holds.
#[verifier::external_type_specification]
#[verifier::external_body]
pub struct ExCairoHintProcessor<'a>(CairoHintProcessor<'a>);

/// How an entry point expects to be run.
#[derive(Clone, Copy, Debug, PartialEq, Eq, Structural)]
pub enum EntryPointKind {
    /// Run by a bootloader: a function that ends by returning.
    Bootloader,
    /// Run directly, as a program of its own.
    Standalone,
}

/// One callable target of an executable.
#[derive(Clone, Debug, PartialEq, Eq)]
pub struct EntryPoint {
    pub kind: EntryPointKind,
    /// Where in the bytecode the entry point starts.
    pub offset: usize,
    /// The builtins it requires, in the order in which it expects them.
    pub builtins: Vec<BuiltinName>,
}

/// What the loader reads of a compiled executable: the entry points that it
/// declares, in their order, the number of words of its bytecode, and the
/// offsets at which it declares hints, in their order.
pub struct ArtifactShape {
    pub entry_points: Seq<EntryPoint>,
    pub code_length: nat,
    pub hint_offsets: Seq<nat>,
}

/// A compiled executable after deserialization, with what the loader reads
/// of it laid out beside it. The deserializer alone makes one.
pub struct ProgramArtifact {
    executable: Executable,
    entry_points: Vec<EntryPoint>,
    code_length: usize,
    hint_offsets: Vec<usize>,
}

/// An executable with its hints resolved: the program's hint table, the
/// hint processor that holds the lookup from hint code to hint, and the
/// hint codes of both. The hint resolver alone makes one.
struct ResolvedArtifact {
    artifact: ProgramArtifact,
    by_offset: HashMap<usize, Vec<HintParams>>,
    context: CairoHintProcessor<'static>,
    declared: Vec<String>,
    known: Vec<String>,
}

/// A program ready to run once: the machine's program, built to start at
/// the offset and with the builtins of the entry point that was selected,
/// the hint processor that resolves its hints, and that entry point. The
/// program builder alone makes one.
pub struct LoadedProgram {
    program: Program,
    context: CairoHintProcessor<'static>,
    entry_point: EntryPoint,
}

/// Why loading failed. Each failure ends the invocation.
#[derive(Debug, PartialEq, Eq)]
pub enum LoadError {
    /// The artifact could not be read from where it is stored.
    ArtifactUnreadable(String),
    /// The bytes are not a serialized executable.
    ArtifactMalformed(String),
    /// The program's hint table names a hint that the lookup does not hold.
    HintResolution(String),
    /// No entry point is of the standalone kind.
    NoEntryPoint,
    /// The machine's program could not be built from the executable.
    ProgramConstruction(String),
}

/// Whether an entry point is of the standalone kind.
pub open spec fn is_standalone(entry: EntryPoint) -> bool {
    entry.kind == EntryPointKind::Standalone
}

/// Whether `index` is the position of the first standalone entry point.
pub open spec fn is_first_standalone(entries: Seq<EntryPoint>, index: int) -> bool {
    &&& 0 <= index < entries.len()
    &&& is_standalone(entries[index])
    &&& forall|j: int| 0 <= j < index ==> !is_standalone(#[trigger] entries[j])
}

/// Whether no entry point is of the standalone kind.
pub open spec fn has_no_standalone(entries: Seq<EntryPoint>) -> bool {
    forall|j: int| 0 <= j < entries.len() ==> !is_standalone(#[trigger] entries[j])
}

/// Whether the lookup holds the hint code.
pub open spec fn is_known(code: Seq<char>, known: Seq<String>) -> bool {
    exists|j: int| 0 <= j < known.len() && (#[trigger] known[j])@ == code
}

/// Selects the entry point to run: the first of the standalone kind.
/// `None` where there is none.
pub fn select_entry_point(entries: &Vec<EntryPoint>) -> (r: Option<usize>)
    ensures
        match r {
            Some(index) => is_first_standalone(entries@, index as int),
            None => has_no_standalone(entries@),
        },
{
    let mut i: usize = 0;
    while i < entries.len()
        invariant
            i <= entries@.len(),
            forall|j: int| 0 <= j < i ==> !is_standalone(#[trigger] entries@[j]),
        decreases entries@.len() - i,
    {
        match entries[i].kind {
            EntryPointKind::Standalone => {
                return Some(i);
            },
            EntryPointKind::Bootloader => {},
        }
        i = i + 1;
    }
    None
}

/// Where exactly one entry point is of the standalone kind, that one is
/// selected; where none is, none is selected.
pub proof fn lemma_selection_of_the_only_standalone(entries: Seq<EntryPoint>, index: int)
    requires
        0 <= index < entries.len(),
        is_standalone(entries[index]),
        forall|j: int| 0 <= j < entries.len() && j != index ==> !is_standalone(#[trigger] entries[j]),
    ensures
        is_first_standalone(entries, index),
        !has_no_standalone(entries),
        forall|other: int| is_first_standalone(entries, other) ==> other == index,
{
}

/// Whether the lookup holds the hint code.
fn knows(code: &String, known: &Vec<String>) -> (r: bool)
    ensures
        r == is_known(code@, known@),
{
    let mut j: usize = 0;
    while j < known.len()
        invariant
            j <= known@.len(),
            forall|k: int| 0 <= k < j ==> (#[trigger] known@[k])@ != code@,
        decreases known@.len() - j,
    {
        if known[j] == *code {
            return true;
        }
        j = j + 1;
    }
    false
}

/// Looks every hint code that the program's table names up in the lookup:
/// the position of the first that the lookup does not hold, or `None` where
/// it holds them all.
pub fn first_unresolved_hint(declared: &Vec<String>, known: &Vec<String>) -> (r: Option<usize>)
    ensures
        match r {
            Some(index) => {
                &&& index < declared@.len()
                &&& !is_known(declared@[index as int]@, known@)
                &&& forall|k: int| 0 <= k < index ==> is_known((#[trigger] declared@[k])@, known@)
            },
            None => forall|k: int|
                0 <= k < declared@.len() ==> is_known((#[trigger] declared@[k])@, known@),
        },
{
    let mut i: usize = 0;
    while i < declared.len()
        invariant
            i <= declared@.len(),
            forall|k: int| 0 <= k < i ==> is_known((#[trigger] declared@[k])@, known@),
        decreases declared@.len() - i,
    {
        if !knows(&declared[i], known) {
            return Some(i);
        }
        i = i + 1;
    }
    None
}

/// Whether the machine's program builder accepts an executable: every
/// hint is declared at an offset inside the bytecode.
pub open spec fn builder_accepts(shape: ArtifactShape) -> bool {
    forall|k: int|
        0 <= k < shape.hint_offsets.len() ==> (#[trigger] shape.hint_offsets[k])
            < shape.code_length
}

/// The largest of the offsets; zero where there is none.
pub open spec fn largest(offsets: Seq<nat>) -> nat
    decreases offsets.len(),
{
    if offsets.len() == 0 {
        0
    } else if offsets.last() > largest(offsets.drop_last()) {
        offsets.last()
    } else {
        largest(offsets.drop_last())
    }
}

/// What the builder says of an executable that it refuses: the largest
/// offset of a hint, and the length of the bytecode that it is not below.
pub open spec fn refusal_text(shape: ArtifactShape) -> Seq<char> {
    "Hint PC ("@ + decimal_text(largest(shape.hint_offsets))
        + ") is greater or equal to program length ("@ + decimal_text(shape.code_length) + ")"@
}

impl View for ProgramArtifact {
    type V = ArtifactShape;

    closed spec fn view(&self) -> ArtifactShape {
        ArtifactShape {
            entry_points: self.entry_points@,
            code_length: self.code_length as nat,
            hint_offsets: Seq::new(
                self.hint_offsets@.len(),
                |i: int| self.hint_offsets@[i] as nat,
            ),
        }
    }
}

impl ProgramArtifact {
    /// The entry points that the executable declares, in their order.
    pub fn declared_entry_points(&self) -> (r: &Vec<EntryPoint>)
        ensures
            r@ == self@.entry_points,
    {
        &self.entry_points
    }

    /// The number of words of the bytecode.
    pub fn code_length(&self) -> (r: usize)
        ensures
            r == self@.code_length,
    {
        self.code_length
    }

    /// The offsets at which the executable declares hints, in their order.
    pub fn hint_offsets(&self) -> (r: &Vec<usize>)
        ensures
            r@.len() == self@.hint_offsets.len(),
            forall|i: int| 0 <= i < r@.len() ==> r@[i] == self@.hint_offsets[i],
    {
        &self.hint_offsets
    }
}

impl LoadedProgram {
    /// The entry point that the run starts at.
    pub closed spec fn entry_point(&self) -> EntryPoint {
        self.entry_point
    }

    /// The entry point that the run starts at.
    pub fn selected_entry_point(&self) -> (r: &EntryPoint)
        ensures
            *r == self.entry_point(),
    {
        &self.entry_point
    }

    /// Hands the program over to whoever runs it: the machine's program,
    /// the hint processor with the lookup of its hints, and the entry point.
    /// The loaded program is used up: a second run needs a second load.
    pub fn into_parts(self) -> (r: (Program, CairoHintProcessor<'static>, EntryPoint))
        ensures
            r.2 == self.entry_point(),
    {
        (self.program, self.context, self.entry_point)
    }
}

/// What deserializing bytes gives: what the loader reads of the executable,
/// or the deserializer's objection in its own words where the bytes are no
/// serialized executable.
pub uninterp spec fn reading_of(bytes: Seq<u8>) -> Result<ArtifactShape, Seq<char>>;

/// `serde_json::from_slice`, for the compiler's `Executable`. Whether it
/// accepts the bytes, what it objects to where it does not, and what the
/// executable holds where it does, depends on the bytes alone. Beside the
/// executable stand, one for one and in their order, its entry points (the
/// kind, the offset and the builtins of each), the length of its bytecode
/// and the offsets of its hints. An error comes back as its own text.
#[verifier::external_body]
fn read_executable(bytes: &[u8]) -> (r: Result<ProgramArtifact, String>)
    ensures
        r is Ok <==> reading_of(bytes@) is Ok,
        r is Ok ==> r->Ok_0@ == reading_of(bytes@)->Ok_0,
        r is Err ==> r->Err_0@ == reading_of(bytes@)->Err_0,
{
    let executable = serde_json::from_slice::<Executable>(bytes).map_err(|e| e.to_string())?;
    let kind = |k: &ArtifactKind| match k {
        ArtifactKind::Bootloader => EntryPointKind::Bootloader,
        ArtifactKind::Standalone => EntryPointKind::Standalone,
    };
    let entry = |e: &ExecutableEntryPoint| EntryPoint {
        kind: kind(&e.kind), offset: e.offset, builtins: e.builtins.clone(),
    };
    Ok(ProgramArtifact {
        entry_points: executable.entrypoints.iter().map(entry).collect(),
        code_length: executable.program.bytecode.len(),
        hint_offsets: executable.program.hints.iter().map(|site| site.0).collect(),
        executable,
    })
}

/// `build_hints_dict` of the compiler's runner, on the hints of the
/// executable. It gives the program's hint table and the lookup from hint
/// code to hint, and it enters the code of every hint into both: the lookup
/// holds every code that the table names. The lookup is handed on inside a
/// fresh hint processor that has no arguments and has recorded nothing. The
/// codes of the table and of the lookup stand beside them, in whatever
/// order the walk over each hash map gives.
#[verifier::external_body]
fn hint_tables(artifact: ProgramArtifact) -> (r: ResolvedArtifact)
    ensures
        r.artifact@ == artifact@,
        forall|k: int| 0 <= k < r.declared@.len() ==> is_known((#[trigger] r.declared@[k])@, r.known@),
{
    let (by_offset, string_to_hint) = build_hints_dict(&artifact.executable.program.hints);
    let declared = by_offset.values().flatten().map(|hint| hint.code.clone()).collect();
    let known = string_to_hint.keys().cloned().collect();
    let context = CairoHintProcessor {
        runner: None, user_args: Vec::new(), string_to_hint,
        starknet_state: Default::default(), run_resources: Default::default(),
        syscalls_used_resources: Default::default(), no_temporary_segments: false,
        markers: Default::default(), panic_traceback: Default::default(),
    };
    ResolvedArtifact { artifact, by_offset, context, declared, known }
}

/// `Program::new` of the machine, on the bytecode of the executable, each
/// word as a field element, the builtins and the offset of the entry point
/// at `index`, and the hint table; no references, identifiers, error
/// attributes or instruction locations. With these it refuses only a hint
/// whose offset is not inside the bytecode, and says so with the largest
/// such offset and the length of the bytecode. The program that it builds
/// keeps the offset and the builtins it was given: it is handed on with
/// that entry point.
#[verifier::external_body]
fn assemble(resolved: ResolvedArtifact, index: usize) -> (r: Result<LoadedProgram, String>)
    requires
        index < resolved.artifact@.entry_points.len(),
    ensures
        r is Ok <==> builder_accepts(resolved.artifact@),
        r is Ok ==> r->Ok_0.entry_point() == resolved.artifact@.entry_points[index as int],
        r is Err ==> r->Err_0@ == refusal_text(resolved.artifact@),
{
    let ResolvedArtifact { mut artifact, by_offset, context, .. } = resolved;
    let words = artifact.executable.program.bytecode.iter().map(Felt252::from);
    let data = words.map(MaybeRelocatable::from).collect();
    let entry_point = artifact.entry_points.remove(index);
    let (builtins, main) = (entry_point.builtins.clone(), Some(entry_point.offset));
    let (references, identifiers) = (Default::default(), Default::default());
    let built =
        Program::new(builtins, data, main, by_offset, references, identifiers, Vec::new(), None);
    match built {
        Ok(program) => Ok(LoadedProgram { program, context, entry_point }),
        Err(e) => Err(e.to_string()),
    }
}

/// Deserializes an executable.
///
/// What is an executable and what is not, the deserializer decides, and it
/// decides by the bytes alone: [`reading_of`] is what it gives. Bytes that
/// it objects to fail with `ArtifactMalformed`, which carries the objection
/// word for word, and no other bytes fail. Bytes that it accepts give the
/// artifact, with what the loader reads of it laid out.
///
/// Nothing is selected, resolved or built here: that is left to
/// [`prepare_program`].
pub fn parse_artifact(bytes: &[u8]) -> (r: Result<ProgramArtifact, LoadError>)
    ensures
        match reading_of(bytes@) {
            Ok(shape) => r is Ok && r->Ok_0@ == shape,
            Err(objection) => r is Err && r->Err_0 is ArtifactMalformed
                && r->Err_0->ArtifactMalformed_0@ == objection,
        },
{
    match read_executable(bytes) {
        Ok(artifact) => Ok(artifact),
        Err(detail) => Err(LoadError::ArtifactMalformed(detail)),
    }
}

/// Whether every hint code that the program's table names is in the
/// lookup, and which one is reported where not: the first that the lookup
/// does not hold, in the order of `declared`.
pub fn resolve_hints(declared: &Vec<String>, known: &Vec<String>) -> (r: Result<(), LoadError>)
    ensures
        r is Ok <==> forall|k: int|
            0 <= k < declared@.len() ==> is_known((#[trigger] declared@[k])@, known@),
        r is Err ==> r->Err_0 is HintResolution && exists|index: int|
            0 <= index < declared@.len() && !is_known(declared@[index]@, known@) && (forall|k: int|
                0 <= k < index ==> is_known((#[trigger] declared@[k])@, known@))
                && r->Err_0->HintResolution_0 == #[trigger] declared@[index],
{
    match first_unresolved_hint(declared, known) {
        Some(missing) => Err(LoadError::HintResolution(declared[missing].clone())),
        None => Ok(()),
    }
}

/// Ends a load with what the machine's program builder gave: the loaded
/// program as it is, or `ProgramConstruction` with the builder's refusal
/// word for word.
pub fn finish_loading(built: Result<LoadedProgram, String>) -> (r: Result<LoadedProgram, LoadError>)
    ensures
        built is Ok ==> r is Ok && r->Ok_0 == built->Ok_0,
        built is Err ==> r == Err::<LoadedProgram, LoadError>(
            LoadError::ProgramConstruction(built->Err_0),
        ),
{
    match built {
        Ok(loaded) => Ok(loaded),
        Err(detail) => Err(LoadError::ProgramConstruction(detail)),
    }
}

/// What preparing an executable of the given shape comes to. Without a
/// standalone entry point it fails with `NoEntryPoint`. With one, it
/// succeeds exactly where the program builder accepts the executable, and
/// the program then starts at the first standalone entry point; where the
/// builder refuses, it fails with `ProgramConstruction` and the builder's
/// words.
pub open spec fn is_preparation_of(shape: ArtifactShape, r: Result<LoadedProgram, LoadError>) -> bool {
    if has_no_standalone(shape.entry_points) {
        r == Err::<LoadedProgram, LoadError>(LoadError::NoEntryPoint)
    } else if builder_accepts(shape) {
        r is Ok && exists|index: int|
            is_first_standalone(shape.entry_points, index) && r->Ok_0.entry_point()
                == #[trigger] shape.entry_points[index]
    } else {
        r is Err && r->Err_0 is ProgramConstruction && r->Err_0->ProgramConstruction_0@
            == refusal_text(shape)
    }
}

/// Makes a deserialized executable ready to run: selects the first
/// standalone entry point, resolves the hints and builds the machine's
/// program.
///
/// The hints are looked up one by one before the program is built, and a
/// code that the lookup did not hold would fail with `HintResolution`; the
/// resolver in use enters every hint that it is given, so none does.
pub fn prepare_program(artifact: ProgramArtifact) -> (r: Result<LoadedProgram, LoadError>)
    ensures
        is_preparation_of(artifact@, r),
{
    let index = match select_entry_point(&artifact.entry_points) {
        Some(index) => index,
        None => {
            return Err(LoadError::NoEntryPoint);
        },
    };
    let resolved = hint_tables(artifact);
    match resolve_hints(&resolved.declared, &resolved.known) {
        Ok(()) => {},
        Err(error) => {
            return Err(error);
        },
    }
    finish_loading(assemble(resolved, index))
}

/// What loading bytes comes to. Bytes that are no serialized executable
/// fail with `ArtifactMalformed` and the deserializer's objection; bytes
/// that are one come to what preparing it comes to.
pub open spec fn is_loading_of(bytes: Seq<u8>, r: Result<LoadedProgram, LoadError>) -> bool {
    match reading_of(bytes) {
        Err(objection) => r is Err && r->Err_0 is ArtifactMalformed
            && r->Err_0->ArtifactMalformed_0@ == objection,
        Ok(shape) => is_preparation_of(shape, r),
    }
}

/// Loads an executable from its bytes: deserializes it, then makes it ready
/// to run.
pub fn load_program(bytes: &[u8]) -> (r: Result<LoadedProgram, LoadError>)
    ensures
        is_loading_of(bytes@, r),
{
    match parse_artifact(bytes) {
        Ok(artifact) => prepare_program(artifact),
        Err(error) => Err(error),
    }
}

/// Loads an executable from what reading its storage gave: the bytes, or
/// the reason why they could not be read. A failed read is
/// `ArtifactUnreadable` with that reason, and nothing else is; bytes that
/// were read are loaded as [`load_program`] loads them.
pub fn load_from(read: Result<Vec<u8>, String>) -> (r: Result<LoadedProgram, LoadError>)
    ensures
        match read {
            Ok(bytes) => is_loading_of(bytes@, r),
            Err(reason) => r == Err::<LoadedProgram, LoadError>(
                LoadError::ArtifactUnreadable(reason),
            ),
        },
{
    match read {
        Ok(bytes) => load_program(bytes.as_slice()),
        Err(detail) => Err(LoadError::ArtifactUnreadable(detail)),
    }
}

/// An executable whose only standalone entry point stands at `index`, and
/// whose hints all stand inside its bytecode, loads, and the program starts
/// at that entry point: at its offset and with its builtins.
pub proof fn lemma_loading_of_the_only_standalone(
    bytes: Seq<u8>,
    r: Result<LoadedProgram, LoadError>,
    index: int,
)
    requires
        is_loading_of(bytes, r),
        reading_of(bytes) is Ok,
        builder_accepts(reading_of(bytes)->Ok_0),
        0 <= index < reading_of(bytes)->Ok_0.entry_points.len(),
        is_standalone(reading_of(bytes)->Ok_0.entry_points[index]),
        forall|j: int|
            0 <= j < reading_of(bytes)->Ok_0.entry_points.len() && j != index ==> !is_standalone(
                #[trigger] reading_of(bytes)->Ok_0.entry_points[j],
            ),
    ensures
        r is Ok,
        r->Ok_0.entry_point() == reading_of(bytes)->Ok_0.entry_points[index],
        r->Ok_0.entry_point().offset == reading_of(bytes)->Ok_0.entry_points[index].offset,
        r->Ok_0.entry_point().builtins == reading_of(bytes)->Ok_0.entry_points[index].builtins,
{
    let entries = reading_of(bytes)->Ok_0.entry_points;
    lemma_selection_of_the_only_standalone(entries, index);
}

/// What a load error says first: which step failed.
pub open spec fn load_error_context(error: LoadError) -> Seq<char> {
    match error {
        LoadError::ArtifactUnreadable(_) => "Failed to read executable file. Make sure you have run 'scarb build'."@,
        LoadError::ArtifactMalformed(_) => "Failed to deserialize executable."@,
        LoadError::HintResolution(_) => "Failed to resolve a hint of the executable."@,
        LoadError::NoEntryPoint => "No `Standalone` entrypoint found in executable."@,
        LoadError::ProgramConstruction(_) => "Failed to build program from executable."@,
    }
}

/// The detail that a load error carries, if any.
pub open spec fn load_error_detail(error: LoadError) -> Option<Seq<char>> {
    match error {
        LoadError::ArtifactUnreadable(detail) => Some(detail@),
        LoadError::ArtifactMalformed(detail) => Some(detail@),
        LoadError::HintResolution(detail) => Some(detail@),
        LoadError::NoEntryPoint => None,
        LoadError::ProgramConstruction(detail) => Some(detail@),
    }
}

/// A failure in words: what failed, and below it the cause where one is
/// known.
pub open spec fn failure_text(context: Seq<char>, detail: Option<Seq<char>>) -> Seq<char> {
    match detail {
        Some(cause) => context + "\n\nCaused by:\n    "@ + cause,
        None => context,
    }
}

/// Writes a failure in words.
pub fn render_failure(context: &str, detail: Option<&String>) -> (r: String)
    ensures
        r@ == failure_text(
            context@,
            match detail {
                Some(cause) => Some(cause@),
                None => None,
            },
        ),
{
    let mut r = String::from_str(context);
    match detail {
        Some(cause) => {
            r.append("\n\nCaused by:\n    ");
            r.append(cause.as_str());
        },
        None => {},
    }
    r
}

impl LoadError {
    /// The message for the caller.
    pub fn message(&self) -> (r: String)
        ensures
            r@ == failure_text(load_error_context(*self), load_error_detail(*self)),
    {
        match self {
            LoadError::ArtifactUnreadable(detail) => render_failure(
                "Failed to read executable file. Make sure you have run 'scarb build'.",
                Some(detail),
            ),
            LoadError::ArtifactMalformed(detail) => render_failure(
                "Failed to deserialize executable.",
                Some(detail),
            ),
            LoadError::HintResolution(detail) => render_failure(
                "Failed to resolve a hint of the executable.",
                Some(detail),
            ),
            LoadError::NoEntryPoint => render_failure(
                "No `Standalone` entrypoint found in executable.",
                None,
            ),
            LoadError::ProgramConstruction(detail) => render_failure(
                "Failed to build program from executable.",
                Some(detail),
            ),
        }
    }
}

} // verus!
