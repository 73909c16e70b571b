//! The view-model: display-ready data about the debuggee that the panels
//! of the user interface render.

pub mod theme;

use vstd::prelude::*;

verus! {

// =============================================================================
// Execution status
// =============================================================================

/// Execution status of the debuggee.
#[derive(Debug, Clone, PartialEq, Eq, Structural)]
pub enum ExecutionStatus {
    /// Not yet started or loading.
    NotStarted,
    /// Running (not stopped at a breakpoint).
    Running,
    /// Stopped at a breakpoint or after stepping.
    Stopped { reason: StopReason },
    /// The process has exited.
    Exited { code: i32 },
    /// The process was killed by a signal.
    Signaled { signal: i32 },
}

/// Why the debuggee stopped.
#[derive(Debug, Clone, PartialEq, Eq, Structural)]
pub enum StopReason {
    Breakpoint { id: BreakpointId },
    Step,
    Signal { signal: i32 },
    /// Stopped at an ownership decision point.
    OwnershipCheckpoint,
}

// =============================================================================
// Stack frames
// =============================================================================

/// Identifies a stack frame within a debug session.
#[derive(Debug, Clone, Copy, PartialEq, Eq, Hash, Structural)]
pub struct FrameId(pub u32);

/// A single stack frame.
#[derive(Debug, Clone)]
pub struct StackFrame {
    pub id: FrameId,
    /// Function name, demangled and formatted for display.
    pub function_name: String,
    /// Source location, if debug info is available.
    pub source_location: Option<SourceLocation>,
    /// Instruction pointer for this frame.
    pub instruction_pointer: u64,
    /// Whether this frame is inlined (not a real stack frame).
    pub is_inlined: bool,
    /// Module or crate this function belongs to, if known.
    pub module: Option<String>,
}

// =============================================================================
// Variables and ownership
// =============================================================================

/// A variable visible in the debugger, with its ownership state.
#[derive(Debug)]
pub struct Variable {
    /// Variable name as it appears in source.
    pub name: String,
    /// Rust type, formatted for display.
    pub rust_type: TypeDisplay,
    /// Current value, formatted for display.
    pub value: ValueDisplay,
    /// Ownership or borrow state of this variable.
    pub ownership: OwnershipState,
    /// For compound types, the nested values; empty for primitives.
    pub children: Vec<Variable>,
    /// Memory address where this variable lives, if applicable.
    pub address: Option<u64>,
    /// Whether the compiler optimized this variable out.
    pub is_optimized_out: bool,
    /// For enums, the active variant, if known.
    pub enum_variant: Option<String>,
}

/// A Rust type formatted for display.
#[derive(Debug, Clone)]
pub struct TypeDisplay {
    /// The full type, e.g. `HashMap<String, Vec<u8>>`.
    pub full: String,
    /// An optional short form for constrained space.
    pub short: Option<String>,
}

impl TypeDisplay {
    /// A type display of `full`, without a short form.
    pub fn new(full: &str) -> (t: Self)
        ensures
            t.full@ == full@,
            t.short is None,
    {
        TypeDisplay { full: String::from_str(full), short: None }
    }

    /// The text to display: the full type.
    pub fn display(&self) -> (s: &str)
        ensures
            s@ == self.full@,
    {
        self.full.as_str()
    }
}

/// A value formatted for display.
#[derive(Debug, Clone)]
pub struct ValueDisplay {
    /// The value as text.
    pub display: String,
    /// Raw bytes, if available.
    pub raw_bytes: Option<Vec<u8>>,
}

impl ValueDisplay {
    /// A value display of `display`, without raw bytes.
    pub fn new(display: &str) -> (v: Self)
        ensures
            v.display@ == display@,
            v.raw_bytes is None,
    {
        ValueDisplay { display: String::from_str(display), raw_bytes: None }
    }

    /// The text to display.
    pub fn display(&self) -> (s: &str)
        ensures
            s@ == self.display@,
    {
        self.display.as_str()
    }
}

/// Ownership state of a variable.
#[derive(Debug, Clone, PartialEq)]
pub enum OwnershipState {
    /// The variable owns its value.
    Owned,
    /// The value was moved out of this variable.
    MovedFrom { moved_to: Option<String> },
    /// The value is borrowed through shared references.
    Borrowed { by: Vec<String> },
    /// The value is mutably borrowed.
    MutablyBorrowed { by: String },
    /// The value was dropped.
    Dropped,
    /// Declared but not yet initialized.
    Uninitialized,
    /// Some fields of a struct were moved out.
    PartiallyMoved { moved_fields: Vec<String> },
    /// The ownership state cannot be determined.
    Unknown { reason: Option<String> },
}

impl OwnershipState {
    /// Whether the value can be meaningfully read.
    pub open spec fn spec_is_accessible(&self) -> bool {
        self is Owned || self is Borrowed || self is MutablyBorrowed
    }

    /// Whether to display the variable grayed out.
    pub open spec fn spec_should_dim(&self) -> bool {
        self is MovedFrom || self is Dropped || self is Uninitialized
    }

    /// Whether this variable's value is accessible: owned or borrowed.
    pub fn is_accessible(&self) -> (r: bool)
        ensures
            r == self.spec_is_accessible(),
    {
        match self {
            OwnershipState::Owned | OwnershipState::Borrowed { .. }
            | OwnershipState::MutablyBorrowed { .. } => true,
            _ => false,
        }
    }

    /// Whether to display this variable diminished: moved from, dropped or
    /// uninitialized.
    pub fn should_dim(&self) -> (r: bool)
        ensures
            r == self.spec_should_dim(),
    {
        match self {
            OwnershipState::MovedFrom { .. } | OwnershipState::Dropped
            | OwnershipState::Uninitialized => true,
            _ => false,
        }
    }
}

/// Law: a value is never both accessible and dimmed.
pub proof fn lemma_accessible_never_dimmed(state: OwnershipState)
    ensures
        state.spec_is_accessible() ==> !state.spec_should_dim(),
{
}

// =============================================================================
// Source code
// =============================================================================

/// Path to a source file.
#[derive(Debug, Clone, PartialEq, Eq, Hash)]
pub struct SourcePath(pub String);

/// Source location: file, 1-based line, optional 1-based column.
#[derive(Debug, Clone, PartialEq, Eq)]
pub struct SourceLocation {
    pub path: SourcePath,
    pub line: u32,
    pub column: Option<u32>,
}

/// Contents of a source file, with metadata for display.
#[derive(Debug, Clone)]
pub struct SourceFile {
    pub path: SourcePath,
    /// Lines of the file; index 0 is line 1.
    pub lines: Vec<String>,
    /// Lines holding a breakpoint.
    pub breakpoints: Vec<u32>,
    /// Lines that hold executable code.
    pub executable_lines: Vec<u32>,
}

// =============================================================================
// Breakpoints
// =============================================================================

/// Identifies a breakpoint.
#[derive(Debug, Clone, Copy, PartialEq, Eq, Hash, Structural)]
pub struct BreakpointId(pub u32);

/// A breakpoint set in the debuggee.
#[derive(Debug, Clone)]
pub struct Breakpoint {
    pub id: BreakpointId,
    pub enabled: bool,
    pub location: BreakpointLocation,
    /// Condition expression, for a conditional breakpoint.
    pub condition: Option<String>,
    /// How many times the breakpoint was hit.
    pub hit_count: u32,
    /// Break only after this many hits.
    pub ignore_count: u32,
}

/// Where a breakpoint is set.
#[derive(Debug, Clone)]
pub enum BreakpointLocation {
    /// At a source location.
    Source { location: SourceLocation },
    /// At a function's entry.
    Function { name: String },
    /// At a raw address.
    Address { address: u64 },
}

// =============================================================================
// Registers
// =============================================================================

/// Register values for the current state (x86-64).
#[derive(Debug, Clone)]
pub struct RegisterSet {
    /// General-purpose registers.
    pub general: Vec<Register>,
    /// Floating-point and SSE registers.
    pub floating: Vec<Register>,
    /// Special registers (flags, segments).
    pub special: Vec<Register>,
}

/// A single register.
#[derive(Debug, Clone)]
pub struct Register {
    pub name: String,
    pub value: u64,
    /// For flags registers, the individual flags.
    pub flags: Option<Vec<(String, bool)>>,
    /// Whether the register changed since the last stop.
    pub changed: bool,
}

// =============================================================================
// Disassembly
// =============================================================================

/// A line of disassembly.
#[derive(Debug, Clone)]
pub struct DisassemblyLine {
    pub address: u64,
    /// Raw bytes of the instruction.
    pub bytes: Vec<u8>,
    /// Mnemonic and operands.
    pub instruction: String,
    /// Source location of the instruction, if known.
    pub source_location: Option<SourceLocation>,
    /// Whether this is the current instruction.
    pub is_current: bool,
    /// Whether a breakpoint is set at this address.
    pub has_breakpoint: bool,
    /// For calls: the called function's name, if known.
    pub call_target: Option<String>,
}

// =============================================================================
// Memory view
// =============================================================================

/// Configuration of the memory view.
#[derive(Debug, Clone)]
pub struct MemoryViewConfig {
    /// Bytes per row, typically 16.
    pub bytes_per_row: usize,
    /// How to interpret bytes beyond raw hex.
    pub interpretation: MemoryInterpretation,
}

/// How to interpret memory bytes.
#[derive(Debug, Clone, PartialEq, Eq)]
pub enum MemoryInterpretation {
    /// Hex and ASCII only.
    Raw,
    /// As an array of the named type.
    AsType(String),
}

// =============================================================================
// Traits
// =============================================================================

/// A trait implemented by a value's type.
#[derive(Debug, Clone)]
pub struct TraitInfo {
    /// Trait name, e.g. `Debug`.
    pub name: String,
    /// Full path if not in the prelude.
    pub path: Option<String>,
    /// Methods of the impl.
    pub methods: Vec<TraitMethod>,
    /// Whether this is an auto trait (`Send`, `Sync`).
    pub is_auto: bool,
}

/// A method of a trait implementation.
#[derive(Debug, Clone)]
pub struct TraitMethod {
    pub name: String,
    /// Signature for display.
    pub signature: String,
    /// Source location of the impl, if known.
    pub impl_location: Option<SourceLocation>,
}

// =============================================================================
// Borrow scopes
// =============================================================================

/// An active borrow in the current scope.
#[derive(Debug, Clone)]
pub struct BorrowInfo {
    /// The borrowed variable.
    pub borrowed_variable: String,
    /// The variable holding the borrow.
    pub borrower: String,
    /// Whether the borrow is mutable.
    pub is_mutable: bool,
    /// Source range where the borrow is active.
    pub active_range: Option<SourceRange>,
}

/// A range in source code.
#[derive(Debug, Clone)]
pub struct SourceRange {
    pub start: SourceLocation,
    pub end: SourceLocation,
}

// =============================================================================
// Pattern match state
// =============================================================================

/// State of a `match` when stopped inside it.
#[derive(Debug, Clone)]
pub struct PatternMatchState {
    /// The scrutinee's source text.
    pub scrutinee: String,
    /// The scrutinee's value.
    pub scrutinee_value: ValueDisplay,
    /// All arms.
    pub arms: Vec<MatchArm>,
    /// Index of the arm that matched.
    pub matched_arm: usize,
}

/// One arm of a `match`.
#[derive(Debug, Clone)]
pub struct MatchArm {
    /// The pattern's source text.
    pub pattern: String,
    /// Whether this arm matched.
    pub matched: bool,
    /// Why the arm did not match, if known.
    pub non_match_reason: Option<String>,
    /// Bindings introduced by the pattern.
    pub bindings: Vec<(String, ValueDisplay)>,
}

// =============================================================================
// Commands
// =============================================================================

/// Commands the user interface sends to the debug session.
#[derive(Debug, Clone)]
pub enum DebugCommand {
    Continue,
    StepOver,
    StepInto,
    StepOut,
    StepInstruction,
    Pause,
    Stop,
    Restart,
    AddBreakpoint { location: BreakpointLocation },
    RemoveBreakpoint { id: BreakpointId },
    EnableBreakpoint { id: BreakpointId, enabled: bool },
    SetBreakpointCondition { id: BreakpointId, condition: Option<String> },
    SelectFrame { id: FrameId },
    GoToSource { location: SourceLocation },
    GoToAddress { address: u64 },
    ExpandVariable { path: Vec<String> },
    CollapseVariable { path: Vec<String> },
}

} // verus!
