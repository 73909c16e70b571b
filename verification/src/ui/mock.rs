//! A mock debug session with realistic data, for developing the panels
//! before a real session exists.

use vstd::prelude::*;
use core::ops::Range;
use crate::process::{u64_bytes, u64_to_bytes};
use crate::text::{lines_of, split_lines, str_eq, views};
use crate::ui_types::{
    Breakpoint, BreakpointId, BreakpointLocation, DisassemblyLine, ExecutionStatus, FrameId,
    OwnershipState, Register, RegisterSet, SourceFile, SourceLocation, SourcePath, StackFrame,
    StopReason, TypeDisplay, ValueDisplay, Variable,
};

verus! {

/// Size of the mock memory.
pub const MOCK_MEMORY_SIZE: usize = 4096;

/// The ASCII bytes of `Hello, Anteater!`.
pub open spec fn hello_bytes() -> Seq<u8> {
    seq![72u8, 101, 108, 108, 111, 44, 32, 65, 110, 116, 101, 97, 116, 101, 114, 33]
}

/// The mock memory's byte at address `a`: a greeting at 0x100, the bytes
/// 0 to 255 at 0x200, 64 little-endian stack words `0x7fff_0000_0000 +
/// 16 i` at 0x400, the pattern `(13 i + 7) mod 256` at 0x800, zero
/// elsewhere.
pub open spec fn mock_memory_byte(a: int) -> u8 {
    if 0x100 <= a < 0x110 {
        hello_bytes()[a - 0x100]
    } else if 0x200 <= a < 0x300 {
        (a - 0x200) as u8
    } else if 0x400 <= a < 0x600 {
        u64_bytes((0x7fff_0000_0000 + ((a - 0x400) / 8) * 0x10) as u64)[(a - 0x400) % 8]
    } else if 0x800 <= a < 0xa00 {
        (((a - 0x800) * 13 + 7) % 256) as u8
    } else {
        0
    }
}

/// The mock memory.
pub open spec fn mock_memory() -> Seq<u8> {
    Seq::new(MOCK_MEMORY_SIZE as nat, |a: int| mock_memory_byte(a))
}

/// The bytes below `p` hold their final values, the others are zero.
spec fn filled(m: Seq<u8>, p: int) -> bool {
    &&& m.len() == MOCK_MEMORY_SIZE
    &&& forall|a: int| 0 <= a < MOCK_MEMORY_SIZE ==> #[trigger] m[a] == if a < p {
        mock_memory_byte(a)
    } else {
        0
    }
}

proof fn lemma_filled_skip(m: Seq<u8>, p: int, q: int)
    requires
        filled(m, p),
        p <= q,
        forall|a: int| p <= a < q ==> mock_memory_byte(a) == 0,
    ensures
        filled(m, q),
{
    assert forall|a: int| 0 <= a < MOCK_MEMORY_SIZE implies #[trigger] m[a] == if a < q {
        mock_memory_byte(a)
    } else {
        0
    } by {
        if p <= a < q {
            assert(mock_memory_byte(a) == 0);
        }
    }
}

proof fn lemma_filled_step(m: Seq<u8>, p: int)
    requires
        filled(m, p),
        0 <= p < MOCK_MEMORY_SIZE,
    ensures
        filled(m.update(p, mock_memory_byte(p)), p + 1),
{
    let m2 = m.update(p, mock_memory_byte(p));
    assert forall|a: int| 0 <= a < MOCK_MEMORY_SIZE implies #[trigger] m2[a] == if a < p + 1 {
        mock_memory_byte(a)
    } else {
        0
    } by {
        if a != p {
            assert(m2[a] == m[a]);
        }
    }
}

/// The memory of the mock session.
fn create_mock_memory() -> (mem: Vec<u8>)
    ensures
        mem@ == mock_memory(),
{
    let mut mem: Vec<u8> = Vec::new();
    let mut i: usize = 0;
    while i < MOCK_MEMORY_SIZE
        invariant
            i <= MOCK_MEMORY_SIZE,
            mem@.len() == i,
            forall|a: int| 0 <= a < i ==> #[trigger] mem@[a] == 0,
        decreases MOCK_MEMORY_SIZE - i,
    {
        mem.push(0u8);
        i = i + 1;
    }
    assert(filled(mem@, 0));
    proof {
        lemma_filled_skip(mem@, 0, 0x100);
    }
    // The greeting.
    let hello: [u8; 16] = [72, 101, 108, 108, 111, 44, 32, 65, 110, 116, 101, 97, 116, 101, 114, 33];
    assert(hello@ =~= hello_bytes());
    let mut k: usize = 0;
    while k < 16
        invariant
            k <= 16,
            hello@ == hello_bytes(),
            filled(mem@, 0x100 + k),
        decreases 16 - k,
    {
        proof {
            lemma_filled_step(mem@, 0x100 + k);
        }
        mem.set(0x100 + k, hello[k]);
        k = k + 1;
    }
    proof {
        lemma_filled_skip(mem@, 0x110, 0x200);
    }
    // The bytes 0 to 255.
    let mut i: usize = 0;
    while i < 256
        invariant
            i <= 256,
            filled(mem@, 0x200 + i),
        decreases 256 - i,
    {
        proof {
            lemma_filled_step(mem@, 0x200 + i);
        }
        mem.set(0x200 + i, i as u8);
        i = i + 1;
    }
    proof {
        lemma_filled_skip(mem@, 0x300, 0x400);
    }
    // Stack-like words.
    let mut i: usize = 0;
    while i < 64
        invariant
            i <= 64,
            filled(mem@, 0x400 + 8 * i),
        decreases 64 - i,
    {
        let value: u64 = 0x7fff_0000_0000u64 + (i as u64) * 0x10;
        let bytes = u64_to_bytes(value);
        let mut k: usize = 0;
        while k < 8
            invariant
                i < 64,
                k <= 8,
                bytes@ == u64_bytes(value),
                value == 0x7fff_0000_0000u64 + (i as u64) * 0x10,
                filled(mem@, 0x400 + 8 * i + k),
            decreases 8 - k,
        {
            let ghost a: int = 0x400 + 8 * i + k;
            assert((a - 0x400) / 8 == i && (a - 0x400) % 8 == k) by (nonlinear_arith)
                requires
                    a == 0x400 + 8 * i + k,
                    0 <= k < 8,
            ;
            assert(mock_memory_byte(a) == bytes@[k as int]);
            proof {
                lemma_filled_step(mem@, a);
            }
            mem.set(0x400 + 8 * i + k, bytes[k]);
            k = k + 1;
        }
        i = i + 1;
    }
    proof {
        lemma_filled_skip(mem@, 0x600, 0x800);
    }
    // A repeating pattern.
    let mut i: usize = 0;
    while i < 512
        invariant
            i <= 512,
            filled(mem@, 0x800 + i),
        decreases 512 - i,
    {
        proof {
            lemma_filled_step(mem@, 0x800 + i);
        }
        mem.set(0x800 + i, ((i * 13 + 7) % 256) as u8);
        i = i + 1;
    }
    proof {
        lemma_filled_skip(mem@, 0xa00, MOCK_MEMORY_SIZE as int);
    }
    assert(mem@ =~= mock_memory());
    mem
}


/// The source text of the mock session's program.
pub const MOCK_SOURCE: &'static str = r#"fn main() {
    println!("Starting Anteater example...");

    let data = vec![1, 2, 3, 4, 5];
    let config = Config::default();

    process(data, &config);
}

fn process(mut data: Vec<u8>, config: &Config) {
    println!("Processing {} bytes", data.len());

    for item in &mut data {
        *item *= 2;
    }

    match config.mode {
        Mode::Fast => fast_process(&data),
        Mode::Accurate => accurate_process(&data),
    }
}

fn fast_process(data: &[u8]) {
    // Fast implementation
    for byte in data {
        // Process byte
    }
}

fn accurate_process(data: &[u8]) {
    // Accurate implementation
    for (i, byte) in data.iter().enumerate() {
        // Process byte with index
    }
}

#[derive(Default)]
struct Config {
    mode: Mode,
}

enum Mode {
    Fast,
    Accurate,
}

impl Default for Mode {
    fn default() -> Self {
        Mode::Fast
    }
}"#;

/// The path of the mock program's source file.
pub open spec fn main_rs() -> Seq<char> {
    "src/main.rs"@
}

/// Whether `l` is the location `path:line:column`.
pub open spec fn is_location(l: SourceLocation, path: Seq<char>, line: u32, column: Option<u32>) -> bool {
    &&& l.path.0@ == path
    &&& l.line == line
    &&& l.column == column
}

/// Whether `o` holds a string equal to `s`.
pub open spec fn is_some_text(o: Option<String>, s: Seq<char>) -> bool {
    o matches Some(t) && t@ == s
}

fn main_rs_location(line: u32, column: Option<u32>) -> (l: SourceLocation)
    ensures
        is_location(l, main_rs(), line, column),
{
    SourceLocation { path: SourcePath(String::from_str("src/main.rs")), line, column }
}

/// Whether `f` is the frame with these fields.
pub open spec fn is_frame(
    f: StackFrame,
    id: u32,
    name: Seq<char>,
    location: Option<(u32, Option<u32>)>,
    ip: u64,
    module: Seq<char>,
) -> bool {
    &&& f.id == FrameId(id)
    &&& f.function_name@ == name
    &&& match location {
        Some((line, column)) => f.source_location matches Some(l) && is_location(
            l,
            main_rs(),
            line,
            column,
        ),
        None => f.source_location is None,
    }
    &&& f.instruction_pointer == ip
    &&& !f.is_inlined
    &&& is_some_text(f.module, module)
}

/// The mock call stack, innermost frame first.
pub open spec fn is_mock_frames(f: Seq<StackFrame>) -> bool {
    &&& f.len() == 3
    &&& is_frame(f[0], 0, "process::<Vec<u8>>"@, Some((42, Some(8))), 0x401234, "anteater_example"@)
    &&& is_frame(f[1], 1, "main"@, Some((10, Some(4))), 0x401000, "anteater_example"@)
    &&& is_frame(f[2], 2, "std::rt::lang_start"@, None, 0x7fff12345678, "std"@)
}

fn create_mock_frames() -> (frames: Vec<StackFrame>)
    ensures
        is_mock_frames(frames@),
{
    vec![
        StackFrame {
            id: FrameId(0),
            function_name: String::from_str("process::<Vec<u8>>"),
            source_location: Some(main_rs_location(42, Some(8))),
            instruction_pointer: 0x401234,
            is_inlined: false,
            module: Some(String::from_str("anteater_example")),
        },
        StackFrame {
            id: FrameId(1),
            function_name: String::from_str("main"),
            source_location: Some(main_rs_location(10, Some(4))),
            instruction_pointer: 0x401000,
            is_inlined: false,
            module: Some(String::from_str("anteater_example")),
        },
        StackFrame {
            id: FrameId(2),
            function_name: String::from_str("std::rt::lang_start"),
            source_location: None,
            instruction_pointer: 0x7fff12345678,
            is_inlined: false,
            module: Some(String::from_str("std")),
        },
    ]
}

/// Whether `v` is a variable with these texts and address, not optimized
/// out, of no enum variant, with `n` children.
pub open spec fn is_variable(
    v: Variable,
    name: Seq<char>,
    ty: Seq<char>,
    value: Seq<char>,
    address: Option<u64>,
    n: nat,
) -> bool {
    &&& v.name@ == name
    &&& v.rust_type.full@ == ty
    &&& v.rust_type.short is None
    &&& v.value.display@ == value
    &&& v.value.raw_bytes is None
    &&& v.address == address
    &&& v.children@.len() == n
}

/// Whether `v` is a plain owned variable with these texts and address.
pub open spec fn is_plain_owned(v: Variable, name: Seq<char>, ty: Seq<char>, value: Seq<char>, address: u64) -> bool {
    &&& is_variable(v, name, ty, value, Some(address), 0)
    &&& v.ownership is Owned
    &&& !v.is_optimized_out
    &&& v.enum_variant is None
}

/// The mock variables of the innermost frame.
pub open spec fn is_mock_variables(v: Seq<Variable>) -> bool {
    &&& v.len() == 6
    // `data`, an owned vector with its three fields as children.
    &&& is_variable(v[0], "data"@, "Vec<u8>"@, "Vec(len=3, cap=8)"@, Some(0x7fff_1234_5678), 3)
    &&& v[0].ownership is Owned && !v[0].is_optimized_out && v[0].enum_variant is None
    &&& is_plain_owned(v[0].children@[0], "len"@, "usize"@, "3"@, 0x7fff_1234_5678)
    &&& is_plain_owned(v[0].children@[1], "capacity"@, "usize"@, "8"@, 0x7fff_1234_5680)
    &&& is_plain_owned(v[0].children@[2], "ptr"@, "*mut u8"@, "0x600000000000"@, 0x7fff_1234_5688)
    // `config`, borrowed by `settings`.
    &&& is_variable(v[1], "config"@, "&Config"@, "0x7fff_1234_5700"@, Some(0x7fff_1234_5690), 0)
    &&& v[1].ownership matches OwnershipState::Borrowed { by } && views(by@) == seq!["settings"@]
    &&& !v[1].is_optimized_out && v[1].enum_variant is None
    // `old_data`, moved into `data`.
    &&& is_variable(v[2], "old_data"@, "Vec<u8>"@, "(moved)"@, Some(0x7fff_1234_5698), 0)
    &&& v[2].ownership matches OwnershipState::MovedFrom { moved_to } && is_some_text(moved_to, "data"@)
    &&& !v[2].is_optimized_out && v[2].enum_variant is None
    // `buffer`, mutably borrowed by `writer`.
    &&& is_variable(v[3], "buffer"@, "&mut [u8]"@, "[0, 0, 0, 0]"@, Some(0x7fff_1234_56a0), 0)
    &&& v[3].ownership matches OwnershipState::MutablyBorrowed { by } && by@ == "writer"@
    &&& !v[3].is_optimized_out && v[3].enum_variant is None
    // `result`, an owned `Some`.
    &&& is_variable(v[4], "result"@, "Option<i32>"@, "Some(42)"@, Some(0x7fff_1234_56b0), 0)
    &&& v[4].ownership is Owned && !v[4].is_optimized_out && is_some_text(v[4].enum_variant, "Some"@)
    // `optimized`, optimized out, of unknown ownership.
    &&& is_variable(v[5], "optimized"@, "i32"@, "(optimized out)"@, None, 0)
    &&& v[5].ownership matches OwnershipState::Unknown { reason } && is_some_text(
        reason,
        "Optimized out by compiler"@,
    )
    &&& v[5].is_optimized_out && v[5].enum_variant is None
}

fn leaf_variable(name: &str, ty: &str, value: &str, ownership: OwnershipState, address: Option<u64>) -> (v: Variable)
    ensures
        is_variable(v, name@, ty@, value@, address, 0),
        v.ownership == ownership,
        !v.is_optimized_out,
        v.enum_variant is None,
{
    Variable {
        name: String::from_str(name),
        rust_type: TypeDisplay::new(ty),
        value: ValueDisplay::new(value),
        ownership,
        children: Vec::new(),
        address,
        is_optimized_out: false,
        enum_variant: None,
    }
}

fn create_mock_variables() -> (vars: Vec<Variable>)
    ensures
        is_mock_variables(vars@),
{
    let children = vec![
        leaf_variable("len", "usize", "3", OwnershipState::Owned, Some(0x7fff_1234_5678)),
        leaf_variable("capacity", "usize", "8", OwnershipState::Owned, Some(0x7fff_1234_5680)),
        leaf_variable("ptr", "*mut u8", "0x600000000000", OwnershipState::Owned, Some(0x7fff_1234_5688)),
    ];
    let mut data = leaf_variable("data", "Vec<u8>", "Vec(len=3, cap=8)", OwnershipState::Owned, Some(0x7fff_1234_5678));
    data.children = children;
    let by = vec![String::from_str("settings")];
    assert(views(by@) =~= seq!["settings"@]);
    let config = leaf_variable(
        "config",
        "&Config",
        "0x7fff_1234_5700",
        OwnershipState::Borrowed { by },
        Some(0x7fff_1234_5690),
    );
    let old_data = leaf_variable(
        "old_data",
        "Vec<u8>",
        "(moved)",
        OwnershipState::MovedFrom { moved_to: Some(String::from_str("data")) },
        Some(0x7fff_1234_5698),
    );
    let buffer = leaf_variable(
        "buffer",
        "&mut [u8]",
        "[0, 0, 0, 0]",
        OwnershipState::MutablyBorrowed { by: String::from_str("writer") },
        Some(0x7fff_1234_56a0),
    );
    let mut result = leaf_variable("result", "Option<i32>", "Some(42)", OwnershipState::Owned, Some(0x7fff_1234_56b0));
    result.enum_variant = Some(String::from_str("Some"));
    let mut optimized = leaf_variable(
        "optimized",
        "i32",
        "(optimized out)",
        OwnershipState::Unknown { reason: Some(String::from_str("Optimized out by compiler")) },
        None,
    );
    optimized.is_optimized_out = true;
    vec![data, config, old_data, buffer, result, optimized]
}

/// Whether `r` is the register `name` with this value, no flags breakdown,
/// and this changed mark.
pub open spec fn is_register(r: Register, name: Seq<char>, value: u64, changed: bool) -> bool {
    &&& r.name@ == name
    &&& r.value == value
    &&& r.flags is None
    &&& r.changed == changed
}

/// The mock register set.
pub open spec fn is_mock_registers(r: RegisterSet) -> bool {
    let g = r.general@;
    &&& g.len() == 9
    &&& is_register(g[0], "rax"@, 0x0000_0000_0000_002a, true)
    &&& is_register(g[1], "rbx"@, 0x7fff_1234_5678, false)
    &&& is_register(g[2], "rcx"@, 0x0000_0000_0000_0003, false)
    &&& is_register(g[3], "rdx"@, 0x0000_0000_0000_0008, false)
    &&& is_register(g[4], "rsi"@, 0x7fff_1234_5678, false)
    &&& is_register(g[5], "rdi"@, 0x6000_0000_0000, false)
    &&& is_register(g[6], "rbp"@, 0x7fff_ffff_e000, false)
    &&& is_register(g[7], "rsp"@, 0x7fff_ffff_dfe0, false)
    &&& is_register(g[8], "rip"@, 0x0000_0000_0040_1234, true)
    &&& r.floating@.len() == 0
    &&& r.special@.len() == 1
    &&& r.special@[0].name@ == "rflags"@
    &&& r.special@[0].value == 0x0000_0000_0000_0246
    &&& !r.special@[0].changed
    &&& r.special@[0].flags matches Some(flags) && flags@.len() == 4
        && flags@[0].0@ == "CF"@ && !flags@[0].1
        && flags@[1].0@ == "ZF"@ && flags@[1].1
        && flags@[2].0@ == "SF"@ && !flags@[2].1
        && flags@[3].0@ == "OF"@ && !flags@[3].1
}

fn register(name: &str, value: u64, changed: bool) -> (r: Register)
    ensures
        is_register(r, name@, value, changed),
{
    Register { name: String::from_str(name), value, flags: None, changed }
}

fn create_mock_registers() -> (r: RegisterSet)
    ensures
        is_mock_registers(r),
{
    let flags = vec![
        (String::from_str("CF"), false),
        (String::from_str("ZF"), true),
        (String::from_str("SF"), false),
        (String::from_str("OF"), false),
    ];
    RegisterSet {
        general: vec![
            register("rax", 0x0000_0000_0000_002a, true),
            register("rbx", 0x7fff_1234_5678, false),
            register("rcx", 0x0000_0000_0000_0003, false),
            register("rdx", 0x0000_0000_0000_0008, false),
            register("rsi", 0x7fff_1234_5678, false),
            register("rdi", 0x6000_0000_0000, false),
            register("rbp", 0x7fff_ffff_e000, false),
            register("rsp", 0x7fff_ffff_dfe0, false),
            register("rip", 0x0000_0000_0040_1234, true),
        ],
        floating: Vec::new(),
        special: vec![
            Register {
                name: String::from_str("rflags"),
                value: 0x0000_0000_0000_0246,
                flags: Some(flags),
                changed: false,
            },
        ],
    }
}

/// The mock breakpoints: an enabled one at `src/main.rs:42` hit once, and
/// a disabled conditional one on function `process`.
pub open spec fn is_mock_breakpoints(b: Seq<Breakpoint>) -> bool {
    &&& b.len() == 2
    &&& b[0].id == BreakpointId(1)
    &&& b[0].enabled
    &&& b[0].location matches BreakpointLocation::Source { location } && is_location(
        location,
        main_rs(),
        42,
        None,
    )
    &&& b[0].condition is None
    &&& b[0].hit_count == 1
    &&& b[0].ignore_count == 0
    &&& b[1].id == BreakpointId(2)
    &&& !b[1].enabled
    &&& b[1].location matches BreakpointLocation::Function { name } && name@ == "process"@
    &&& is_some_text(b[1].condition, "data.len() > 10"@)
    &&& b[1].hit_count == 0
    &&& b[1].ignore_count == 0
}

fn create_mock_breakpoints() -> (b: Vec<Breakpoint>)
    ensures
        is_mock_breakpoints(b@),
{
    vec![
        Breakpoint {
            id: BreakpointId(1),
            enabled: true,
            location: BreakpointLocation::Source { location: main_rs_location(42, None) },
            condition: None,
            hit_count: 1,
            ignore_count: 0,
        },
        Breakpoint {
            id: BreakpointId(2),
            enabled: false,
            location: BreakpointLocation::Function { name: String::from_str("process") },
            condition: Some(String::from_str("data.len() > 10")),
            hit_count: 0,
            ignore_count: 0,
        },
    ]
}

/// Whether `d` is the disassembly line with these fields.
pub open spec fn is_disassembly_line(
    d: DisassemblyLine,
    address: u64,
    bytes: Seq<u8>,
    instruction: Seq<char>,
    location: Option<(u32, Option<u32>)>,
    is_current: bool,
    has_breakpoint: bool,
) -> bool {
    &&& d.address == address
    &&& d.bytes@ == bytes
    &&& d.instruction@ == instruction
    &&& match location {
        Some((line, column)) => d.source_location matches Some(l) && is_location(
            l,
            main_rs(),
            line,
            column,
        ),
        None => d.source_location is None,
    }
    &&& d.is_current == is_current
    &&& d.has_breakpoint == has_breakpoint
}

/// The mock disassembly around the current instruction.
pub open spec fn is_mock_disassembly(d: Seq<DisassemblyLine>) -> bool {
    &&& d.len() == 4
    &&& is_disassembly_line(d[0], 0x401230, seq![0x55u8], "push rbp"@, Some((42, None)), false, false)
    &&& d[0].call_target is None
    &&& is_disassembly_line(d[1], 0x401231, seq![0x48u8, 0x89, 0xe5], "mov rbp, rsp"@, None, false, false)
    &&& d[1].call_target is None
    &&& is_disassembly_line(
        d[2],
        0x401234,
        seq![0x48u8, 0x8b, 0x45, 0xf8],
        "mov rax, [rbp-8]"@,
        Some((42, Some(8))),
        true,
        true,
    )
    &&& d[2].call_target is None
    &&& is_disassembly_line(
        d[3],
        0x401238,
        seq![0xe8u8, 0xc3, 0x00, 0x00, 0x00],
        "call 0x401300"@,
        None,
        false,
        false,
    )
    &&& is_some_text(d[3].call_target, "transform"@)
}

fn create_mock_disassembly() -> (d: Vec<DisassemblyLine>)
    ensures
        is_mock_disassembly(d@),
{
    let b0 = vec![0x55u8];
    let b1 = vec![0x48u8, 0x89, 0xe5];
    let b2 = vec![0x48u8, 0x8b, 0x45, 0xf8];
    let b3 = vec![0xe8u8, 0xc3, 0x00, 0x00, 0x00];
    assert(b0@ =~= seq![0x55u8]);
    assert(b1@ =~= seq![0x48u8, 0x89, 0xe5]);
    assert(b2@ =~= seq![0x48u8, 0x8b, 0x45, 0xf8]);
    assert(b3@ =~= seq![0xe8u8, 0xc3, 0x00, 0x00, 0x00]);
    vec![
        DisassemblyLine {
            address: 0x401230,
            bytes: b0,
            instruction: String::from_str("push rbp"),
            source_location: Some(main_rs_location(42, None)),
            is_current: false,
            has_breakpoint: false,
            call_target: None,
        },
        DisassemblyLine {
            address: 0x401231,
            bytes: b1,
            instruction: String::from_str("mov rbp, rsp"),
            source_location: None,
            is_current: false,
            has_breakpoint: false,
            call_target: None,
        },
        DisassemblyLine {
            address: 0x401234,
            bytes: b2,
            instruction: String::from_str("mov rax, [rbp-8]"),
            source_location: Some(main_rs_location(42, Some(8))),
            is_current: true,
            has_breakpoint: true,
            call_target: None,
        },
        DisassemblyLine {
            address: 0x401238,
            bytes: b3,
            instruction: String::from_str("call 0x401300"),
            source_location: None,
            is_current: false,
            has_breakpoint: false,
            call_target: Some(String::from_str("transform")),
        },
    ]
}

/// The mock source file: the lines of `MOCK_SOURCE`, with breakpoints on
/// lines 10 and 42 and the executable lines listed.
pub open spec fn is_mock_source_file(f: SourceFile) -> bool {
    &&& f.path.0@ == main_rs()
    &&& views(f.lines@) == lines_of(MOCK_SOURCE@)
    &&& f.breakpoints@ == seq![10u32, 42]
    &&& f.executable_lines@ == seq![1u32, 2, 4, 5, 7, 10, 11, 13, 14, 15, 17, 18, 19, 23, 24, 25, 26, 31, 32, 33, 34, 42]
}

fn create_mock_source_file() -> (f: SourceFile)
    ensures
        is_mock_source_file(f),
{
    let breakpoints = vec![10u32, 42];
    let executable_lines = vec![1u32, 2, 4, 5, 7, 10, 11, 13, 14, 15, 17, 18, 19, 23, 24, 25, 26, 31, 32, 33, 34, 42];
    assert(breakpoints@ =~= seq![10u32, 42]);
    assert(executable_lines@ =~= seq![1u32, 2, 4, 5, 7, 10, 11, 13, 14, 15, 17, 18, 19, 23, 24, 25, 26, 31, 32, 33, 34, 42]);
    SourceFile {
        path: SourcePath(String::from_str("src/main.rs")),
        lines: split_lines(MOCK_SOURCE),
        breakpoints,
        executable_lines,
    }
}


/// Mock debug session for developing the panels.
pub struct MockDebugSession {
    status: ExecutionStatus,
    frames: Vec<StackFrame>,
    variables: Vec<Variable>,
    registers: RegisterSet,
    breakpoints: Vec<Breakpoint>,
    memory: Vec<u8>,
}

/// The mock session's status: stopped at breakpoint 1.
pub open spec fn mock_status() -> ExecutionStatus {
    ExecutionStatus::Stopped { reason: StopReason::Breakpoint { id: BreakpointId(1) } }
}

fn copy_status(s: &ExecutionStatus) -> (r: ExecutionStatus)
    ensures
        r == *s,
{
    match s {
        ExecutionStatus::NotStarted => ExecutionStatus::NotStarted,
        ExecutionStatus::Running => ExecutionStatus::Running,
        ExecutionStatus::Stopped { reason } => ExecutionStatus::Stopped {
            reason: match reason {
                StopReason::Breakpoint { id } => StopReason::Breakpoint { id: *id },
                StopReason::Step => StopReason::Step,
                StopReason::Signal { signal } => StopReason::Signal { signal: *signal },
                StopReason::OwnershipCheckpoint => StopReason::OwnershipCheckpoint,
            },
        },
        ExecutionStatus::Exited { code } => ExecutionStatus::Exited { code: *code },
        ExecutionStatus::Signaled { signal } => ExecutionStatus::Signaled { signal: *signal },
    }
}

/// The slice of `mem` that a read of `range` gives: the bytes from its
/// start to its end when the range is well-formed and lies within memory,
/// else none (the range cannot be read).
pub open spec fn memory_window(mem: Seq<u8>, range: Range<u64>) -> Option<Seq<u8>> {
    if range.start <= range.end && range.end <= mem.len() {
        Some(mem.subrange(range.start as int, range.end as int))
    } else {
        None
    }
}

/// Whether `address` lies in `range`.
pub open spec fn in_range(range: Range<u64>, address: u64) -> bool {
    range.start <= address && address < range.end
}

/// The lines of `d` whose address lies in `range`, in order.
pub open spec fn lines_in_range(d: Seq<DisassemblyLine>, range: Range<u64>) -> Seq<DisassemblyLine>
    decreases d.len(),
{
    if d.len() == 0 {
        d
    } else {
        let front = lines_in_range(d.drop_last(), range);
        if in_range(range, d.last().address) {
            front.push(d.last())
        } else {
            front
        }
    }
}

impl MockDebugSession {
    /// The session's execution status.
    pub closed spec fn spec_status(&self) -> ExecutionStatus {
        self.status
    }

    /// The session's stack frames.
    pub closed spec fn spec_frames(&self) -> Seq<StackFrame> {
        self.frames@
    }

    /// The session's variables.
    pub closed spec fn spec_variables(&self) -> Seq<Variable> {
        self.variables@
    }

    /// The session's registers.
    pub closed spec fn spec_registers(&self) -> RegisterSet {
        self.registers
    }

    /// The session's breakpoints.
    pub closed spec fn spec_breakpoints(&self) -> Seq<Breakpoint> {
        self.breakpoints@
    }

    /// The session's memory.
    pub closed spec fn spec_memory(&self) -> Seq<u8> {
        self.memory@
    }

    /// A session stopped at breakpoint 1 in `process`, with the mock frames,
    /// variables, registers, breakpoints and memory.
    pub fn new() -> (s: Self)
        ensures
            s.spec_status() == mock_status(),
            is_mock_frames(s.spec_frames()),
            is_mock_variables(s.spec_variables()),
            is_mock_registers(s.spec_registers()),
            is_mock_breakpoints(s.spec_breakpoints()),
            s.spec_memory() == mock_memory(),
    {
        MockDebugSession {
            status: ExecutionStatus::Stopped {
                reason: StopReason::Breakpoint { id: BreakpointId(1) },
            },
            frames: create_mock_frames(),
            variables: create_mock_variables(),
            registers: create_mock_registers(),
            breakpoints: create_mock_breakpoints(),
            memory: create_mock_memory(),
        }
    }

    /// The execution status.
    pub fn status(&self) -> (r: ExecutionStatus)
        ensures
            r == self.spec_status(),
    {
        copy_status(&self.status)
    }

    /// The stack frames, innermost first.
    pub fn stack_frames(&self) -> (r: &[StackFrame])
        ensures
            r@ == self.spec_frames(),
    {
        self.frames.as_slice()
    }

    /// The variables visible in a frame (the mock has one set for every frame).
    pub fn variables(&self, _frame: FrameId) -> (r: &[Variable])
        ensures
            r@ == self.spec_variables(),
    {
        self.variables.as_slice()
    }

    /// The bytes of `range`, or `None` when the range cannot be read: it
    /// ends before it starts, or past the end of memory.
    pub fn memory(&self, range: Range<u64>) -> (r: Option<&[u8]>)
        ensures
            match memory_window(self.spec_memory(), range) {
                None => r is None,
                Some(w) => r matches Some(s) && s@ == w,
            },
    {
        let len = self.memory.len();
        if range.start <= range.end && range.end <= len as u64 {
            Some(vstd::slice::slice_subrange(self.memory.as_slice(), range.start as usize, range.end as usize))
        } else {
            None
        }
    }

    /// The registers.
    pub fn registers(&self) -> (r: &RegisterSet)
        ensures
            *r == self.spec_registers(),
    {
        &self.registers
    }

    /// The disassembly of `range`: the mock's lines whose address lies in it.
    pub fn disassembly(&self, range: Range<u64>) -> (r: Vec<DisassemblyLine>)
        ensures
            exists|d: Seq<DisassemblyLine>| is_mock_disassembly(d) && r@ == lines_in_range(d, range),
            forall|i: int| 0 <= i < r@.len() ==> in_range(range, #[trigger] r@[i].address),
    {
        let mut all = create_mock_disassembly();
        let ghost d = all@;
        let n = all.len();
        let mut out: Vec<DisassemblyLine> = Vec::new();
        let mut k: usize = 0;
        assert(d.subrange(0, 0) =~= Seq::<DisassemblyLine>::empty());
        while k < n
            invariant
                n == d.len(),
                k <= n,
                all@ =~= d.subrange(k as int, n as int),
                out@ == lines_in_range(d.subrange(0, k as int), range),
                forall|i: int| 0 <= i < out@.len() ==> in_range(range, #[trigger] out@[i].address),
            decreases n - k,
        {
            let line = all.remove(0);
            assert(d.subrange(0, k + 1).drop_last() =~= d.subrange(0, k as int));
            assert(d.subrange(0, k + 1).last() == line);
            if range.start <= line.address && line.address < range.end {
                out.push(line);
            }
            k = k + 1;
        }
        assert(d.subrange(0, n as int) =~= d);
        out
    }

    /// The breakpoints.
    pub fn breakpoints(&self) -> (r: &[Breakpoint])
        ensures
            r@ == self.spec_breakpoints(),
    {
        self.breakpoints.as_slice()
    }

    /// The source file at `path`: the mock's one file, `src/main.rs`, or
    /// `None` for any other path.
    pub fn source_file(&self, path: &SourcePath) -> (r: Option<SourceFile>)
        ensures
            path.0@ == main_rs() ==> (r matches Some(f) && is_mock_source_file(f) && f.path.0@ == path.0@),
            path.0@ != main_rs() ==> r is None,
    {
        let known = str_eq(path.0.as_str(), "src/main.rs");
        if known {
            Some(create_mock_source_file())
        } else {
            None
        }
    }

    /// The current source location: `src/main.rs:42:8`.
    pub fn current_source_location(&self) -> (r: Option<SourceLocation>)
        ensures
            r matches Some(l) && is_location(l, main_rs(), 42, Some(8)),
    {
        Some(main_rs_location(42, Some(8)))
    }
}

impl Default for MockDebugSession {
    fn default() -> (s: Self)
        ensures
            s.spec_status() == mock_status(),
            is_mock_frames(s.spec_frames()),
            is_mock_variables(s.spec_variables()),
            is_mock_registers(s.spec_registers()),
            is_mock_breakpoints(s.spec_breakpoints()),
            s.spec_memory() == mock_memory(),
    {
        Self::new()
    }
}

} // verus!
