use anteater::ui::mock::MockDebugSession;
use anteater::ui::panels::source::{SourcePanel, StyledSpan};
use anteater::ui_types::{SourceFile, SourcePath};

fn text_of(spans: &[StyledSpan]) -> String {
    spans.iter().map(|s| s.text.as_str()).collect()
}

#[test]
fn highlighting_covers_each_line() {
    let session = MockDebugSession::new();
    let loc = session.current_source_location().unwrap();
    let file = &session.source_file(&loc.path).unwrap();
    let mut panel = SourcePanel::new();
    assert!(panel.highlighted(file).is_none());
    panel.highlight(file);
    let lines = panel.highlighted(file).unwrap();
    assert_eq!(lines.len(), file.lines.len());
    for (spans, line) in lines.iter().zip(file.lines.iter()) {
        assert!(spans.is_empty() || text_of(spans) == *line);
    }
    // Rust keywords get a color different from plain identifiers somewhere.
    let colors: std::collections::HashSet<(u8, u8, u8)> =
        lines.iter().flatten().map(|s| (s.r, s.g, s.b)).collect();
    assert!(colors.len() > 1);
}

#[test]
fn cache_is_keyed_by_path_and_text() {
    let a = SourceFile {
        path: SourcePath("a.rs".to_string()),
        lines: vec!["fn main() {}".to_string()],
        breakpoints: vec![],
        executable_lines: vec![],
    };
    let mut panel = SourcePanel::default();
    panel.highlight(&a);
    let first = panel.highlighted(&a).unwrap().clone();
    panel.highlight(&a);
    assert_eq!(text_of(&panel.highlighted(&a).unwrap()[0]), text_of(&first[0]));
    let mut b = a.clone();
    b.lines[0] = "let x = 1;".to_string();
    assert!(panel.highlighted(&b).is_none());
    panel.highlight(&b);
    assert_eq!(text_of(&panel.highlighted(&b).unwrap()[0]), "let x = 1;");
    let mut c = a.clone();
    c.path = SourcePath("b.rs".to_string());
    assert!(panel.highlighted(&c).is_none());
}
