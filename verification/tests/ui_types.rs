use anteater::ui_types::theme::{ownership_colors, use_strikethrough};
use anteater::ui_types::{OwnershipState, TypeDisplay, ValueDisplay};

fn all_states() -> Vec<OwnershipState> {
    vec![
        OwnershipState::Owned,
        OwnershipState::MovedFrom { moved_to: None },
        OwnershipState::Borrowed { by: vec![] },
        OwnershipState::MutablyBorrowed { by: "w".to_string() },
        OwnershipState::Dropped,
        OwnershipState::Uninitialized,
        OwnershipState::PartiallyMoved { moved_fields: vec![] },
        OwnershipState::Unknown { reason: None },
    ]
}

#[test]
fn accessibility_and_dimming() {
    let s = all_states();
    let accessible: Vec<bool> = s.iter().map(|x| x.is_accessible()).collect();
    let dim: Vec<bool> = s.iter().map(|x| x.should_dim()).collect();
    assert_eq!(accessible, vec![true, false, true, true, false, false, false, false]);
    assert_eq!(dim, vec![false, true, false, false, true, true, false, false]);
    for (a, d) in accessible.iter().zip(dim.iter()) {
        assert!(!(*a && *d));
    }
}

#[test]
fn strikethrough_states() {
    let s = all_states();
    let strike: Vec<bool> = s.iter().map(use_strikethrough).collect();
    assert_eq!(strike, vec![false, true, false, false, true, false, false, false]);
    for x in &s {
        if use_strikethrough(x) {
            assert!(x.should_dim());
            assert!(!x.is_accessible());
        }
    }
}

#[test]
fn ownership_color_table() {
    assert_eq!(ownership_colors(&OwnershipState::Owned), ("#e8f5e9", "#2e7d32", "owned"));
    assert_eq!(ownership_colors(&OwnershipState::MovedFrom { moved_to: None }), ("#fafafa", "#9e9e9e", "moved"));
    assert_eq!(ownership_colors(&OwnershipState::Borrowed { by: vec![] }), ("#e3f2fd", "#1565c0", "borrowed"));
    assert_eq!(
        ownership_colors(&OwnershipState::MutablyBorrowed { by: String::new() }),
        ("#fff3e0", "#e65100", "mut borrowed")
    );
    assert_eq!(ownership_colors(&OwnershipState::Dropped), ("#fafafa", "#757575", "dropped"));
    assert_eq!(ownership_colors(&OwnershipState::Uninitialized), ("#fafafa", "#bdbdbd", "uninitialized"));
    assert_eq!(
        ownership_colors(&OwnershipState::PartiallyMoved { moved_fields: vec![] }),
        ("#fff8e1", "#ff8f00", "partial")
    );
    assert_eq!(ownership_colors(&OwnershipState::Unknown { reason: None }), ("#fafafa", "#9e9e9e", "?"));
}

#[test]
fn displays() {
    let t = TypeDisplay::new("HashMap<String, Vec<u8>>");
    assert_eq!(t.display(), "HashMap<String, Vec<u8>>");
    assert!(t.short.is_none());
    let v = ValueDisplay::new("Vec(len=3)");
    assert_eq!(v.display(), "Vec(len=3)");
    assert!(v.raw_bytes.is_none());
}
