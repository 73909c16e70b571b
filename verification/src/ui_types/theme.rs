//! The visual language of ownership states.

use vstd::prelude::*;
use super::OwnershipState;

verus! {

/// Background color, foreground color and badge text of an ownership state.
pub open spec fn spec_ownership_colors(state: OwnershipState) -> (Seq<char>, Seq<char>, Seq<char>) {
    match state {
        OwnershipState::Owned => ("#e8f5e9"@, "#2e7d32"@, "owned"@),
        OwnershipState::MovedFrom { .. } => ("#fafafa"@, "#9e9e9e"@, "moved"@),
        OwnershipState::Borrowed { .. } => ("#e3f2fd"@, "#1565c0"@, "borrowed"@),
        OwnershipState::MutablyBorrowed { .. } => ("#fff3e0"@, "#e65100"@, "mut borrowed"@),
        OwnershipState::Dropped => ("#fafafa"@, "#757575"@, "dropped"@),
        OwnershipState::Uninitialized => ("#fafafa"@, "#bdbdbd"@, "uninitialized"@),
        OwnershipState::PartiallyMoved { .. } => ("#fff8e1"@, "#ff8f00"@, "partial"@),
        OwnershipState::Unknown { .. } => ("#fafafa"@, "#9e9e9e"@, "?"@),
    }
}

/// Colors for an ownership state: (background, foreground, badge text).
pub fn ownership_colors(state: &OwnershipState) -> (r: (&'static str, &'static str, &'static str))
    ensures
        (r.0@, r.1@, r.2@) == spec_ownership_colors(*state),
{
    match state {
        OwnershipState::Owned => ("#e8f5e9", "#2e7d32", "owned"),
        OwnershipState::MovedFrom { .. } => ("#fafafa", "#9e9e9e", "moved"),
        OwnershipState::Borrowed { .. } => ("#e3f2fd", "#1565c0", "borrowed"),
        OwnershipState::MutablyBorrowed { .. } => ("#fff3e0", "#e65100", "mut borrowed"),
        OwnershipState::Dropped => ("#fafafa", "#757575", "dropped"),
        OwnershipState::Uninitialized => ("#fafafa", "#bdbdbd", "uninitialized"),
        OwnershipState::PartiallyMoved { .. } => ("#fff8e1", "#ff8f00", "partial"),
        OwnershipState::Unknown { .. } => ("#fafafa", "#9e9e9e", "?"),
    }
}

/// Whether a variable in this state is shown struck through: moved from
/// or dropped.
pub open spec fn spec_use_strikethrough(state: OwnershipState) -> bool {
    state is MovedFrom || state is Dropped
}

/// Whether to use strikethrough for this ownership state.
pub fn use_strikethrough(state: &OwnershipState) -> (r: bool)
    ensures
        r == spec_use_strikethrough(*state),
{
    match state {
        OwnershipState::MovedFrom { .. } | OwnershipState::Dropped => true,
        _ => false,
    }
}

/// Law: a struck-through variable is also dimmed, and is not accessible.
pub proof fn lemma_strikethrough_is_dimmed(state: OwnershipState)
    ensures
        spec_use_strikethrough(state) ==> state.spec_should_dim(),
        spec_use_strikethrough(state) ==> !state.spec_is_accessible(),
{
}

} // verus!
