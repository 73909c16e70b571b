use anteater::ui::app::PanelType;
use anteater::ui::mock::MockDebugSession;
use anteater::ui::panels::breakpoints::{breakpoint_row, BreakpointsPanel};
use anteater::ui::panels::call_stack::{frame_row, CallStackPanel};
use anteater::ui::panels::disassembly::{disassembly_row, DisassemblyPanel};
use anteater::ui::panels::memory::{hex_dump_rows, parse_address_text, MemoryPanel};
use anteater::ui::panels::registers::{general_register_row, special_register_row, RegistersPanel};
use anteater::ui::panels::source::source_line_marks;
use anteater::ui::panels::variables::{nesting_height, VariablesPanel};
use anteater::ui::theme::{Color, ITerm2Theme};
use anteater::ui::widgets::ownership_badge::{ownership_colors, should_strikethrough};
use anteater::ui_types::theme::use_strikethrough;
use anteater::ui_types::{
    Breakpoint, BreakpointId, BreakpointLocation, FrameId, OwnershipState, SourceLocation, SourcePath,
};

#[test]
fn memory_panel_defaults_and_range() {
    let p = MemoryPanel::new();
    assert_eq!(p.address(), 0);
    assert_eq!(p.bytes_per_row(), 16);
    assert_eq!(p.visible_rows(), 32);
    assert_eq!(p.view_range(), 0..512);
    assert_eq!(p.address_text(), "0x0");
    let _ = MemoryPanel::default();
}

#[test]
fn memory_panel_scrolls() {
    let mut p = MemoryPanel::new();
    p.scroll_up();
    assert_eq!(p.address(), 0);
    p.scroll_down();
    p.scroll_down();
    assert_eq!(p.address(), 32);
    p.scroll_up();
    assert_eq!(p.address(), 16);
    p.set_address_text("0x5");
    p.scroll_up();
    assert_eq!(p.address(), 5);
}

#[test]
fn address_parsing() {
    assert_eq!(parse_address_text("0x1f"), Some(0x1f));
    assert_eq!(parse_address_text("1F"), Some(0x1f));
    assert_eq!(parse_address_text("0x0x10"), Some(0x10));
    assert_eq!(parse_address_text("+ff"), Some(0xff));
    assert_eq!(parse_address_text("0x"), None);
    assert_eq!(parse_address_text(""), None);
    assert_eq!(parse_address_text("+"), None);
    assert_eq!(parse_address_text("-1"), None);
    assert_eq!(parse_address_text("0xg"), None);
    assert_eq!(parse_address_text("ffffffffffffffff"), Some(u64::MAX));
    assert_eq!(parse_address_text("10000000000000000"), None);
    assert_eq!(parse_address_text("0x 1"), None);
    for s in ["0x1f", "1F", "0x0x10", "+ff", "0x", "", "+", "-1", "zz", "ffffffffffffffff", "10000000000000000"] {
        let expected = u64::from_str_radix(s.trim_start_matches("0x"), 16).ok();
        assert_eq!(parse_address_text(s), expected, "input {:?}", s);
    }
}

#[test]
fn address_field_roundtrip() {
    let mut p = MemoryPanel::new();
    p.set_address_text("0x7fff12345678");
    assert_eq!(p.address(), 0x7fff12345678);
    let text = p.address_text();
    assert_eq!(text, "0x7fff12345678");
    p.set_address_text("garbage");
    assert_eq!(p.address(), 0x7fff12345678);
    let mut q = MemoryPanel::new();
    q.set_address_text(&text);
    assert_eq!(q.address(), p.address());
}

#[test]
fn hex_dump_of_greeting() {
    let s = MockDebugSession::new();
    let data = s.memory(0x100..0x120).unwrap();
    let rows = hex_dump_rows(0x100, data, 16);
    assert_eq!(rows.len(), 2);
    assert_eq!(rows[0].address, 0x100);
    assert_eq!(rows[0].address_text, "0x00000100");
    assert_eq!(rows[0].cells[0], "48");
    assert_eq!(rows[0].cells.len(), 16);
    assert_eq!(rows[0].ascii, "Hello, Anteater!");
    assert_eq!(rows[1].address, 0x110);
    assert_eq!(rows[1].ascii, "................");
}

#[test]
fn hex_dump_short_last_row() {
    let data: Vec<u8> = (0..20u8).map(|i| i + 0x7c).collect();
    let rows = hex_dump_rows(0xffff_ffff_0, &data, 16);
    assert_eq!(rows.len(), 2);
    assert_eq!(rows[0].address_text, "0xffffffff0");
    assert_eq!(rows[1].cells, vec!["8c", "8d", "8e", "8f"]);
    assert_eq!(rows[0].ascii, "|}~.............");
    assert_eq!(hex_dump_rows(0, &[], 16).len(), 0);
    assert_eq!(hex_dump_rows(0, &[b' '], 3)[0].ascii, " ");
}

#[test]
fn memory_panel_rows_from_session() {
    let s = MockDebugSession::new();
    let p = MemoryPanel::new();
    let data = s.memory(p.view_range()).unwrap();
    let rows = p.rows(data);
    assert_eq!(rows.len(), 32);
    assert_eq!(rows[16].cells[0], "48");
    assert_eq!(rows[31].address_text, "0x000001f0");
}

#[test]
fn breakpoint_rows() {
    let s = MockDebugSession::new();
    let b = s.breakpoints();
    let r0 = breakpoint_row(&b[0]);
    assert_eq!(r0.location, "src/main.rs:42");
    assert!(r0.enabled);
    assert_eq!(r0.condition, None);
    assert_eq!(r0.hits.as_deref(), Some("hits: 1"));
    let r1 = breakpoint_row(&b[1]);
    assert_eq!(r1.location, "fn process");
    assert_eq!(r1.condition.as_deref(), Some("if data.len() > 10"));
    assert_eq!(r1.hits, None);
    let bp = Breakpoint {
        id: BreakpointId(3),
        enabled: true,
        location: BreakpointLocation::Address { address: 0x4011ab },
        condition: None,
        hit_count: 12,
        ignore_count: 0,
    };
    let r = breakpoint_row(&bp);
    assert_eq!(r.location, "0x4011ab");
    assert_eq!(r.hits.as_deref(), Some("hits: 12"));
    let _ = BreakpointsPanel::new();
}

#[test]
fn call_stack_panel() {
    let mut p = CallStackPanel::new();
    assert_eq!(p.selected_frame(), Some(FrameId(0)));
    assert!(p.is_selected(FrameId(0)));
    p.select(FrameId(2));
    assert!(p.is_selected(FrameId(2)));
    assert!(!p.is_selected(FrameId(0)));
    let s = MockDebugSession::new();
    let f = s.stack_frames();
    let r0 = frame_row(0, &f[0]);
    assert_eq!(r0.index, "#0");
    assert_eq!(r0.function_name, "process::<Vec<u8>>");
    assert_eq!(r0.location.as_deref(), Some("src/main.rs:42"));
    assert!(!r0.std_badge);
    assert!(!r0.italic);
    let r2 = frame_row(2, &f[2]);
    assert_eq!(r2.index, "#2");
    assert_eq!(r2.location, None);
    assert!(r2.std_badge);
    let mut g = f[0].clone();
    g.module = Some("std::rt".to_string());
    assert!(frame_row(11, &g).std_badge);
    g.module = Some("stdx".to_string());
    assert!(!frame_row(11, &g).std_badge);
    assert_eq!(frame_row(11, &g).index, "#11");
}

#[test]
fn disassembly_rows() {
    let s = MockDebugSession::new();
    let d = s.disassembly(0x401230..0x40123c);
    let r = disassembly_row(&d[3]);
    assert_eq!(r.address, "0x00401238");
    assert_eq!(r.bytes, "e8 c3 00 00 00");
    assert_eq!(r.instruction, "call 0x401300");
    assert!(!r.strong);
    let r2 = disassembly_row(&d[2]);
    assert!(r2.strong);
    assert_eq!(r2.bytes, "48 8b 45 f8");
    assert_eq!(disassembly_row(&d[0]).bytes, "55");
    let _ = DisassemblyPanel::new();
}

#[test]
fn register_rows() {
    let s = MockDebugSession::new();
    let r = s.registers();
    let g = general_register_row(&r.general[0]);
    assert_eq!(g.name, "rax");
    assert_eq!(g.hex, "0x000000000000002a");
    assert_eq!(g.decimal, "42");
    assert!(g.highlighted);
    let rbx = general_register_row(&r.general[1]);
    assert_eq!(rbx.decimal, format!("{}", 0x7fff_1234_5678u64));
    let sp = special_register_row(&r.special[0]);
    assert_eq!(sp.hex, "0x00000246");
    assert_eq!(sp.flags[0], ("CF".to_string(), "0".to_string()));
    assert_eq!(sp.flags[1], ("ZF".to_string(), "1".to_string()));
    assert_eq!(general_register_row(&anteater::ui_types::Register {
        name: "x".to_string(),
        value: u64::MAX,
        flags: None,
        changed: false,
    }).decimal, "18446744073709551615");
    let _ = RegistersPanel::new();
}

#[test]
fn source_marks() {
    let s = MockDebugSession::new();
    let f = s.source_file(&SourcePath("src/main.rs".to_string())).unwrap();
    let marks = source_line_marks(&f, Some(42));
    assert_eq!(marks.len(), 51);
    assert_eq!(marks[0].number, 1);
    assert_eq!(marks[0].number_text, "   1");
    assert!(marks[9].has_breakpoint);
    assert!(!marks[8].has_breakpoint);
    assert!(marks[41].is_current && marks[41].has_breakpoint);
    assert!(!marks[40].is_current);
    let none = source_line_marks(&f, None);
    assert!(none.iter().all(|m| !m.is_current));
    let _ = SourceLocation { path: SourcePath("a".to_string()), line: 1, column: None };
}

#[test]
fn variables_panel_rows() {
    let s = MockDebugSession::new();
    let vars = s.variables(FrameId(0));
    assert_eq!(nesting_height(vars), Some(2));
    let mut p = VariablesPanel::new();
    let rows = p.rows(vars);
    assert_eq!(rows.len(), 6);
    assert_eq!(rows[0].expander, Some(false));
    assert_eq!(rows[0].badge, None);
    assert_eq!(rows[1].path, "config");
    assert_eq!(rows[1].badge.unwrap().2, "&");
    assert!(rows[2].struck);
    assert_eq!(rows[2].badge.unwrap().2, "moved");
    assert_eq!(rows[5].value_text, "(optimized out)");
    assert!(rows[5].struck && rows[5].optimized_out);
    assert_eq!(rows[5].address_text, None);
    assert_eq!(rows[0].address_text.as_deref(), Some("@ 0x7fff12345678"));
    p.toggle("data");
    assert!(p.is_expanded("data"));
    let rows = p.rows(vars);
    assert_eq!(rows.len(), 9);
    assert_eq!(rows[0].expander, Some(true));
    assert_eq!(rows[1].path, "data.len");
    assert_eq!(rows[1].depth, 1);
    assert_eq!(rows[3].path, "data.ptr");
    assert_eq!(rows[4].path, "config");
    assert_eq!(rows[4].depth, 0);
    p.toggle("data");
    assert!(!p.is_expanded("data"));
    assert_eq!(p.rows(vars).len(), 6);
    let _ = VariablesPanel::default();
}

#[test]
fn badge_colors() {
    assert_eq!(
        ownership_colors(&OwnershipState::Owned),
        (Color { r: 0, g: 0, b: 0, a: 0 }, Color { r: 0, g: 100, b: 0, a: 255 }, "")
    );
    assert_eq!(
        ownership_colors(&OwnershipState::Borrowed { by: vec![] }),
        (Color::from_rgb(227, 242, 253), Color::from_rgb(21, 101, 192), "&")
    );
    assert_eq!(ownership_colors(&OwnershipState::Uninitialized).2, "\u{2014}");
    assert_eq!(ownership_colors(&OwnershipState::Dropped).1, Color::from_gray(117));
    for st in [OwnershipState::Owned, OwnershipState::Dropped, OwnershipState::MovedFrom { moved_to: None }] {
        assert_eq!(should_strikethrough(&st), use_strikethrough(&st));
    }
}

#[test]
fn panel_types() {
    let all = PanelType::all();
    assert_eq!(all.len(), 7);
    assert_eq!(all[0], PanelType::Source);
    let titles: Vec<&str> = all.iter().map(|p| p.title()).collect();
    assert_eq!(titles, vec!["Source", "Variables", "Call Stack", "Registers", "Disassembly", "Memory", "Breakpoints"]);
}

#[test]
fn themes() {
    let t = ITerm2Theme::default_dark();
    assert_eq!(t.name, "Default Dark");
    assert_eq!(t.background, Color::from_rgb(43, 48, 59));
    assert_eq!(t.selection, Color::from_rgba_premultiplied(76, 86, 106, 128));
    assert_eq!(ITerm2Theme::dracula().ansi_red, Color::from_rgb(255, 85, 85));
    assert_eq!(ITerm2Theme::nord().ansi_bright_cyan, Color::from_rgb(143, 188, 187));
    assert_eq!(ITerm2Theme::one_dark().ansi_blue, Color::from_rgb(97, 175, 239));
    assert_eq!(ITerm2Theme::gruvbox_dark().ansi_bright_white, Color::from_rgb(235, 219, 178));
    assert_eq!(Color::from_rgb(1, 2, 3).a, 255);
}
