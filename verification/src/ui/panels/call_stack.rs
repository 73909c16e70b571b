//! Call stack panel.

use vstd::prelude::*;
use crate::text::{joined, decimal, decimal_string, str_eq, str_starts_with};
use crate::ui_types::{FrameId, StackFrame};

verus! {

/// State of the call stack panel: the selected frame.
pub struct CallStackPanel {
    selected_frame: Option<FrameId>,
}

impl CallStackPanel {
    /// The selected frame.
    pub closed spec fn spec_selected_frame(&self) -> Option<FrameId> {
        self.selected_frame
    }

    /// A panel with the innermost frame (frame 0) selected.
    pub fn new() -> (p: Self)
        ensures
            p.spec_selected_frame() == Some(FrameId(0)),
    {
        CallStackPanel { selected_frame: Some(FrameId(0)) }
    }

    /// The selected frame.
    pub fn selected_frame(&self) -> (f: Option<FrameId>)
        ensures
            f == self.spec_selected_frame(),
    {
        self.selected_frame
    }

    /// Whether `id` is the selected frame.
    pub fn is_selected(&self, id: FrameId) -> (r: bool)
        ensures
            r == (self.spec_selected_frame() == Some(id)),
    {
        match self.selected_frame {
            Some(f) => f.0 == id.0,
            None => false,
        }
    }

    /// Selects frame `id` (the user clicked it).
    pub fn select(&mut self, id: FrameId)
        ensures
            final(self).spec_selected_frame() == Some(id),
    {
        self.selected_frame = Some(id);
    }
}

impl Default for CallStackPanel {
    fn default() -> (p: Self)
        ensures
            p.spec_selected_frame() == Some(FrameId(0)),
    {
        Self::new()
    }
}

/// Whether a module is the standard library's: `std` or below `std::`.
pub open spec fn is_std_module(m: Seq<char>) -> bool {
    m == "std"@ || (m.len() >= 5 && m.subrange(0, 5) == "std::"@)
}

/// What the panel shows of one frame.
#[derive(Debug)]
pub struct FrameRow {
    /// `#<index>`.
    pub index: String,
    /// The function's name.
    pub function_name: String,
    /// Whether to show the name in italics (an inlined frame).
    pub italic: bool,
    /// `path:line`, when the frame's location is known.
    pub location: Option<String>,
    /// Whether to show the `[std]` badge.
    pub std_badge: bool,
}

/// The row the panel shows for the frame at position `index`.
pub fn frame_row(index: usize, frame: &StackFrame) -> (row: FrameRow)
    ensures
        row.index@ == "#"@ + decimal(index as nat),
        row.function_name@ == frame.function_name@,
        row.italic == frame.is_inlined,
        match frame.source_location {
            Some(l) => row.location matches Some(t) && t@ == l.path.0@ + ":"@ + decimal(l.line as nat),
            None => row.location is None,
        },
        row.std_badge == (frame.module matches Some(m) && is_std_module(m@)),
{
    let location = match &frame.source_location {
        Some(l) => {
            let mut s = joined(l.path.0.as_str(), ":");
            s.append(decimal_string(l.line as u64).as_str());
            Some(s)
        },
        None => None,
    };
    let std_badge = match &frame.module {
        Some(m) => {
            let exact = str_eq(m.as_str(), "std");
            let below = str_starts_with(m.as_str(), "std::");
            proof {
                reveal_strlit("std::");
            }
            exact || below
        },
        None => false,
    };
    FrameRow {
        index: joined("#", decimal_string(index as u64).as_str()),
        function_name: frame.function_name.clone(),
        italic: frame.is_inlined,
        location,
        std_badge,
    }
}

} // verus!
