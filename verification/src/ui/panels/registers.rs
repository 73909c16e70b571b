//! Register panel.

use vstd::prelude::*;
use crate::text::{decimal, decimal_string, hex, prefixed_hex, zero_padded};
use crate::ui_types::Register;

verus! {

/// The register panel (it keeps no state of its own).
pub struct RegistersPanel;

impl RegistersPanel {
    pub fn new() -> (p: Self) {
        RegistersPanel
    }
}

impl Default for RegistersPanel {
    fn default() -> (p: Self) {
        Self::new()
    }
}

/// What the panel shows of one general-purpose register.
#[derive(Debug)]
pub struct GeneralRegisterRow {
    pub name: String,
    /// `0x` and sixteen hex digits.
    pub hex: String,
    /// The value in decimal.
    pub decimal: String,
    /// Whether to highlight the register (it changed since the last stop).
    pub highlighted: bool,
}

/// The row the panel shows for a general-purpose register.
pub fn general_register_row(reg: &Register) -> (row: GeneralRegisterRow)
    ensures
        row.name@ == reg.name@,
        row.hex@ == "0x"@ + zero_padded(hex(reg.value as nat), 16),
        row.decimal@ == decimal(reg.value as nat),
        row.highlighted == reg.changed,
{
    GeneralRegisterRow {
        name: reg.name.clone(),
        hex: prefixed_hex(reg.value, 16),
        decimal: decimal_string(reg.value),
        highlighted: reg.changed,
    }
}

/// What the panel shows of one special register.
#[derive(Debug)]
pub struct SpecialRegisterRow {
    pub name: String,
    /// `0x` and at least eight hex digits.
    pub hex: String,
    /// Each flag's name and its bit, `1` or `0`.
    pub flags: Vec<(String, String)>,
}

/// The row the panel shows for a special register.
pub fn special_register_row(reg: &Register) -> (row: SpecialRegisterRow)
    ensures
        row.name@ == reg.name@,
        row.hex@ == "0x"@ + zero_padded(hex(reg.value as nat), 8),
        match reg.flags {
            Some(flags) => {
                &&& row.flags@.len() == flags@.len()
                &&& forall|i: int| 0 <= i < flags@.len() ==> {
                    &&& (#[trigger] row.flags@[i]).0@ == flags@[i].0@
                    &&& row.flags@[i].1@ == if flags@[i].1 {
                        "1"@
                    } else {
                        "0"@
                    }
                }
            },
            None => row.flags@.len() == 0,
        },
{
    let mut rows: Vec<(String, String)> = Vec::new();
    match &reg.flags {
        Some(flags) => {
            let n = flags.len();
            let mut i: usize = 0;
            while i < n
                invariant
                    n == flags@.len(),
                    i <= n,
                    rows@.len() == i,
                    forall|j: int| 0 <= j < i ==> {
                        &&& (#[trigger] rows@[j]).0@ == flags@[j].0@
                        &&& rows@[j].1@ == if flags@[j].1 {
                            "1"@
                        } else {
                            "0"@
                        }
                    },
                decreases n - i,
            {
                let bit = if flags[i].1 {
                    String::from_str("1")
                } else {
                    String::from_str("0")
                };
                rows.push((flags[i].0.clone(), bit));
                i = i + 1;
            }
        },
        None => {},
    }
    SpecialRegisterRow { name: reg.name.clone(), hex: prefixed_hex(reg.value, 8), flags: rows }
}

} // verus!
