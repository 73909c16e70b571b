//! Disassembly panel.

use vstd::prelude::*;
use crate::text::{hex, hex_string, prefixed_hex, push_char, zero_padded};
use crate::ui_types::DisassemblyLine;

verus! {

/// The disassembly panel (it keeps no state of its own).
pub struct DisassemblyPanel;

impl DisassemblyPanel {
    pub fn new() -> (p: Self) {
        DisassemblyPanel
    }
}

impl Default for DisassemblyPanel {
    fn default() -> (p: Self) {
        Self::new()
    }
}

/// The first `n` bytes of `b`, each as two hex digits, separated by spaces.
pub open spec fn hex_bytes_text(b: Seq<u8>, n: nat) -> Seq<char>
    decreases n,
{
    if n == 0 {
        seq![]
    } else if n == 1 {
        zero_padded(hex(b[0] as nat), 2)
    } else {
        hex_bytes_text(b, (n - 1) as nat) + seq![' '] + zero_padded(hex(b[n - 1] as nat), 2)
    }
}

/// What the panel shows of one instruction.
#[derive(Debug)]
pub struct DisassemblyRow {
    /// `0x` and at least eight hex digits.
    pub address: String,
    /// The instruction's bytes in hex.
    pub bytes: String,
    /// The instruction text.
    pub instruction: String,
    /// Whether to show the instruction in bold (the current instruction).
    pub strong: bool,
}

/// The row the panel shows for `line`.
pub fn disassembly_row(line: &DisassemblyLine) -> (row: DisassemblyRow)
    ensures
        row.address@ == "0x"@ + zero_padded(hex(line.address as nat), 8),
        row.bytes@ == hex_bytes_text(line.bytes@, line.bytes@.len()),
        row.instruction@ == line.instruction@,
        row.strong == line.is_current,
{
    let mut bytes = String::new();
    let n = line.bytes.len();
    let mut k: usize = 0;
    while k < n
        invariant
            n == line.bytes@.len(),
            k <= n,
            bytes@ == hex_bytes_text(line.bytes@, k as nat),
        decreases n - k,
    {
        if k > 0 {
            push_char(&mut bytes, ' ');
        }
        bytes.append(hex_string(line.bytes[k] as u64, 2).as_str());
        k = k + 1;
        assert(bytes@ =~= hex_bytes_text(line.bytes@, k as nat));
    }
    DisassemblyRow {
        address: prefixed_hex(line.address, 8),
        bytes,
        instruction: line.instruction.clone(),
        strong: line.is_current,
    }
}

} // verus!
