//! Breakpoint management panel.

use vstd::prelude::*;
use crate::text::{joined, decimal, decimal_string, hex, prefixed_hex, zero_padded};
use crate::ui_types::{Breakpoint, BreakpointId, BreakpointLocation};
use crate::ui::panels::memory::{lemma_address_text_roundtrip, parse_address};

verus! {

/// The breakpoints panel (it keeps no state of its own).
pub struct BreakpointsPanel;

impl BreakpointsPanel {
    pub fn new() -> (p: Self) {
        BreakpointsPanel
    }
}

impl Default for BreakpointsPanel {
    fn default() -> (p: Self) {
        Self::new()
    }
}

/// How a breakpoint's location is shown: `path:line`, `fn name`, or the
/// address in hex.
pub open spec fn location_text(location: BreakpointLocation) -> Seq<char> {
    match location {
        BreakpointLocation::Source { location } => location.path.0@ + ":"@ + decimal(
            location.line as nat,
        ),
        BreakpointLocation::Function { name } => "fn "@ + name@,
        BreakpointLocation::Address { address } => "0x"@ + hex(address as nat),
    }
}

/// What the panel shows of one breakpoint.
#[derive(Debug)]
pub struct BreakpointRow {
    pub id: BreakpointId,
    /// The state of the enable checkbox.
    pub enabled: bool,
    /// The location text.
    pub location: String,
    /// `if <condition>`, for a conditional breakpoint.
    pub condition: Option<String>,
    /// `hits: <count>`, once the breakpoint was hit.
    pub hits: Option<String>,
}

/// The row the panel shows for `bp`.
pub fn breakpoint_row(bp: &Breakpoint) -> (row: BreakpointRow)
    ensures
        row.id == bp.id,
        row.enabled == bp.enabled,
        row.location@ == location_text(bp.location),
        match bp.condition {
            Some(c) => row.condition matches Some(t) && t@ == "if "@ + c@,
            None => row.condition is None,
        },
        if bp.hit_count > 0 {
            row.hits matches Some(t) && t@ == "hits: "@ + decimal(bp.hit_count as nat)
        } else {
            row.hits is None
        },
{
    let location = match &bp.location {
        BreakpointLocation::Source { location } => {
            let mut s = joined(location.path.0.as_str(), ":");
            s.append(decimal_string(location.line as u64).as_str());
            s
        },
        BreakpointLocation::Function { name } => joined("fn ", name.as_str()),
        BreakpointLocation::Address { address } => {
            let s = prefixed_hex(*address, 0);
            assert(zero_padded(hex(*address as nat), 0) == hex(*address as nat));
            s
        },
    };
    let condition = match &bp.condition {
        Some(c) => Some(joined("if ", c.as_str())),
        None => None,
    };
    let hits = if bp.hit_count > 0 {
        Some(joined("hits: ", decimal_string(bp.hit_count as u64).as_str()))
    } else {
        None
    };
    BreakpointRow { id: bp.id, enabled: bp.enabled, location, condition, hits }
}


/// Law: the location of an address breakpoint shows the whole address: its
/// text parses back (as the memory panel's address field reads it) to the
/// breakpoint's address, so two address breakpoints at different
/// addresses never show the same location.
pub proof fn lemma_address_location_reads_back(location: BreakpointLocation, other: BreakpointLocation)
    ensures
        location matches BreakpointLocation::Address { address } ==> parse_address(
            location_text(location),
        ) == Some(address),
        location matches BreakpointLocation::Address { address: a } ==> (other matches BreakpointLocation::Address {
            address: b,
        } ==> (a != b ==> location_text(location) != location_text(other))),
{
    if let BreakpointLocation::Address { address } = location {
        lemma_address_text_roundtrip(address);
    }
    if let BreakpointLocation::Address { address } = other {
        lemma_address_text_roundtrip(address);
    }
}
} // verus!
