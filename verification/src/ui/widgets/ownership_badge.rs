//! The ownership state badge: colors and label that follow the visual
//! language of ownership states.

use vstd::prelude::*;
use crate::ui::theme::Color;
use crate::ui_types::OwnershipState;
use crate::ui_types::theme::spec_use_strikethrough;

verus! {

/// Background color, text color and label of the badge of an ownership
/// state.
pub open spec fn spec_badge(state: OwnershipState) -> (Color, Color, Seq<char>) {
    match state {
        OwnershipState::Owned => (
            Color { r: 0, g: 0, b: 0, a: 0 },
            Color { r: 0, g: 0x64, b: 0, a: 255 },
            ""@,
        ),
        OwnershipState::MovedFrom { .. } => (
            Color { r: 250, g: 250, b: 250, a: 255 },
            Color { r: 158, g: 158, b: 158, a: 255 },
            "moved"@,
        ),
        OwnershipState::Borrowed { .. } => (
            Color { r: 227, g: 242, b: 253, a: 255 },
            Color { r: 21, g: 101, b: 192, a: 255 },
            "&"@,
        ),
        OwnershipState::MutablyBorrowed { .. } => (
            Color { r: 255, g: 243, b: 224, a: 255 },
            Color { r: 230, g: 81, b: 0, a: 255 },
            "&mut"@,
        ),
        OwnershipState::Dropped => (
            Color { r: 250, g: 250, b: 250, a: 255 },
            Color { r: 117, g: 117, b: 117, a: 255 },
            "dropped"@,
        ),
        OwnershipState::Uninitialized => (
            Color { r: 250, g: 250, b: 250, a: 255 },
            Color { r: 189, g: 189, b: 189, a: 255 },
            "\u{2014}"@,
        ),
        OwnershipState::PartiallyMoved { .. } => (
            Color { r: 255, g: 248, b: 225, a: 255 },
            Color { r: 255, g: 143, b: 0, a: 255 },
            "partial"@,
        ),
        OwnershipState::Unknown { .. } => (
            Color { r: 250, g: 250, b: 250, a: 255 },
            Color { r: 158, g: 158, b: 158, a: 255 },
            "?"@,
        ),
    }
}

/// Colors and label of the badge of an ownership state:
/// (background, text color, label).
pub fn ownership_colors(state: &OwnershipState) -> (r: (Color, Color, &'static str))
    ensures
        (r.0, r.1, r.2@) == spec_badge(*state),
{
    match state {
        OwnershipState::Owned => (
            Color::from_rgba_premultiplied(0, 0, 0, 0),
            Color::from_rgb(0, 0x64, 0),
            "",
        ),
        OwnershipState::MovedFrom { .. } => (Color::from_gray(250), Color::from_gray(158), "moved"),
        OwnershipState::Borrowed { .. } => (
            Color::from_rgb(227, 242, 253),
            Color::from_rgb(21, 101, 192),
            "&",
        ),
        OwnershipState::MutablyBorrowed { .. } => (
            Color::from_rgb(255, 243, 224),
            Color::from_rgb(230, 81, 0),
            "&mut",
        ),
        OwnershipState::Dropped => (Color::from_gray(250), Color::from_gray(117), "dropped"),
        OwnershipState::Uninitialized => (
            Color::from_gray(250),
            Color::from_gray(189),
            "\u{2014}",
        ),
        OwnershipState::PartiallyMoved { .. } => (
            Color::from_rgb(255, 248, 225),
            Color::from_rgb(255, 143, 0),
            "partial",
        ),
        OwnershipState::Unknown { .. } => (Color::from_gray(250), Color::from_gray(158), "?"),
    }
}

/// Whether to strike through the name of a variable in this state: moved
/// from or dropped.
pub fn should_strikethrough(state: &OwnershipState) -> (r: bool)
    ensures
        r == (*state is MovedFrom || *state is Dropped),
{
    match state {
        OwnershipState::MovedFrom { .. } | OwnershipState::Dropped => true,
        _ => false,
    }
}

/// Law: the badge widget strikes through exactly the states for which the
/// visual language asks for strikethrough.
pub proof fn lemma_strikethrough_agrees(state: OwnershipState)
    ensures
        (state is MovedFrom || state is Dropped) == spec_use_strikethrough(state),
{
}


/// Whether two ownership states are of the same kind (the same variant).
pub open spec fn same_kind(s: OwnershipState, t: OwnershipState) -> bool {
    &&& (s is Owned <==> t is Owned)
    &&& (s is MovedFrom <==> t is MovedFrom)
    &&& (s is Borrowed <==> t is Borrowed)
    &&& (s is MutablyBorrowed <==> t is MutablyBorrowed)
    &&& (s is Dropped <==> t is Dropped)
    &&& (s is Uninitialized <==> t is Uninitialized)
    &&& (s is PartiallyMoved <==> t is PartiallyMoved)
    &&& (s is Unknown <==> t is Unknown)
}

/// Law: the badge's label tells the kind of ownership apart: states of
/// different kinds get different labels. A mutable borrow's label is the
/// shared borrow's label followed by `mut`.
pub proof fn lemma_badge_labels_distinct(s: OwnershipState, t: OwnershipState)
    ensures
        spec_badge(s).2 == spec_badge(t).2 ==> same_kind(s, t),
        s is MutablyBorrowed && t is Borrowed ==> spec_badge(s).2 == spec_badge(t).2 + "mut"@,
{
    reveal_strlit("&");
    reveal_strlit("&mut");
    reveal_strlit("mut");
    assert("&"@ + "mut"@ =~= "&mut"@);
    lemma_label_shape(s);
    lemma_label_shape(t);
}

/// The length and first character of each badge label.
proof fn lemma_label_shape(s: OwnershipState)
    ensures
        spec_badge(s).2.len() == label_length(s),
        spec_badge(s).2.len() > 0 ==> spec_badge(s).2[0] == label_initial(s),
{
    reveal_strlit("");
    reveal_strlit("moved");
    reveal_strlit("&");
    reveal_strlit("&mut");
    reveal_strlit("dropped");
    reveal_strlit("\u{2014}");
    reveal_strlit("partial");
    reveal_strlit("?");
}

/// The length of each badge label.
spec fn label_length(s: OwnershipState) -> nat {
    match s {
        OwnershipState::Owned => 0,
        OwnershipState::MovedFrom { .. } => 5,
        OwnershipState::Borrowed { .. } => 1,
        OwnershipState::MutablyBorrowed { .. } => 4,
        OwnershipState::Dropped => 7,
        OwnershipState::Uninitialized => 1,
        OwnershipState::PartiallyMoved { .. } => 7,
        OwnershipState::Unknown { .. } => 1,
    }
}

/// The first character of each non-empty badge label.
spec fn label_initial(s: OwnershipState) -> char {
    match s {
        OwnershipState::Owned => ' ',
        OwnershipState::MovedFrom { .. } => 'm',
        OwnershipState::Borrowed { .. } => '&',
        OwnershipState::MutablyBorrowed { .. } => '&',
        OwnershipState::Dropped => 'd',
        OwnershipState::Uninitialized => '\u{2014}',
        OwnershipState::PartiallyMoved { .. } => 'p',
        OwnershipState::Unknown { .. } => '?',
    }
}

} // verus!
