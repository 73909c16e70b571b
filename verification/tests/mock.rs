use anteater::ui::mock::{MockDebugSession, MOCK_SOURCE};
use anteater::ui_types::{
    BreakpointId, BreakpointLocation, ExecutionStatus, FrameId, OwnershipState, SourcePath, StopReason,
};

#[test]
fn mock_status_is_stopped_at_breakpoint_one() {
    let s = MockDebugSession::new();
    assert_eq!(
        s.status(),
        ExecutionStatus::Stopped { reason: StopReason::Breakpoint { id: BreakpointId(1) } }
    );
    let d = MockDebugSession::default();
    assert_eq!(d.status(), s.status());
}

#[test]
fn mock_memory_contents() {
    let s = MockDebugSession::new();
    let all = s.memory(0..4096).unwrap();
    assert_eq!(all.len(), 4096);
    assert_eq!(&all[0x100..0x110], b"Hello, Anteater!");
    assert_eq!(all[0x0ff], 0);
    assert_eq!(all[0x110], 0);
    for i in 0..256usize {
        assert_eq!(all[0x200 + i], i as u8);
    }
    for i in 0..64usize {
        let word = u64::from_le_bytes(all[0x400 + 8 * i..0x408 + 8 * i].try_into().unwrap());
        assert_eq!(word, 0x7fff_0000_0000 + (i as u64) * 0x10);
    }
    for i in 0..512usize {
        assert_eq!(all[0x800 + i], ((i * 13 + 7) % 256) as u8);
    }
    assert!(all[0xa00..].iter().all(|b| *b == 0));
}

#[test]
fn mock_memory_windows() {
    let s = MockDebugSession::new();
    assert_eq!(s.memory(0x100..0x105).unwrap(), b"Hello");
    assert!(s.memory(4090..5000).is_none());
    assert_eq!(s.memory(4090..4096).unwrap().len(), 6);
    assert!(s.memory(8..7).is_none());
    assert!(s.memory(4096..5000).is_none());
    assert!(s.memory(10_000..20_000).is_none());
    assert_eq!(s.memory(7..7).unwrap().len(), 0);
    assert!(s.memory(u64::MAX..u64::MAX).is_none());
}

#[test]
fn mock_frames() {
    let s = MockDebugSession::new();
    let f = s.stack_frames();
    assert_eq!(f.len(), 3);
    assert_eq!(f[0].id, FrameId(0));
    assert_eq!(f[0].function_name, "process::<Vec<u8>>");
    let loc = f[0].source_location.as_ref().unwrap();
    assert_eq!(loc.path, SourcePath("src/main.rs".to_string()));
    assert_eq!(loc.line, 42);
    assert_eq!(loc.column, Some(8));
    assert_eq!(f[0].instruction_pointer, 0x401234);
    assert_eq!(f[1].function_name, "main");
    assert_eq!(f[1].source_location.as_ref().unwrap().line, 10);
    assert_eq!(f[2].function_name, "std::rt::lang_start");
    assert!(f[2].source_location.is_none());
    assert_eq!(f[2].module.as_deref(), Some("std"));
}

#[test]
fn mock_variables() {
    let s = MockDebugSession::new();
    let v = s.variables(FrameId(0));
    assert_eq!(v.len(), 6);
    assert_eq!(v[0].name, "data");
    assert_eq!(v[0].children.len(), 3);
    assert_eq!(v[0].children[1].name, "capacity");
    assert_eq!(v[0].children[1].value.display(), "8");
    assert_eq!(v[1].ownership, OwnershipState::Borrowed { by: vec!["settings".to_string()] });
    assert_eq!(v[2].ownership, OwnershipState::MovedFrom { moved_to: Some("data".to_string()) });
    assert_eq!(v[3].ownership, OwnershipState::MutablyBorrowed { by: "writer".to_string() });
    assert_eq!(v[4].enum_variant.as_deref(), Some("Some"));
    assert!(v[5].is_optimized_out);
    assert_eq!(v[5].address, None);
    assert_eq!(v[3].rust_type.display(), "&mut [u8]");
}

#[test]
fn mock_registers() {
    let s = MockDebugSession::new();
    let r = s.registers();
    assert_eq!(r.general.len(), 9);
    assert_eq!(r.general[0].name, "rax");
    assert_eq!(r.general[0].value, 42);
    assert!(r.general[0].changed);
    assert_eq!(r.general[8].name, "rip");
    assert_eq!(r.general[8].value, 0x401234);
    assert!(r.floating.is_empty());
    assert_eq!(r.special[0].name, "rflags");
    assert_eq!(r.special[0].value, 0x246);
    let flags = r.special[0].flags.as_ref().unwrap();
    assert_eq!(flags[1], ("ZF".to_string(), true));
}

#[test]
fn mock_breakpoints_and_disassembly() {
    let s = MockDebugSession::new();
    let b = s.breakpoints();
    assert_eq!(b.len(), 2);
    assert!(b[0].enabled);
    assert_eq!(b[0].hit_count, 1);
    match &b[1].location {
        BreakpointLocation::Function { name } => assert_eq!(name, "process"),
        _ => panic!("expected a function breakpoint"),
    }
    assert_eq!(b[1].condition.as_deref(), Some("data.len() > 10"));
    let d = s.disassembly(0x401230..0x40123c);
    assert_eq!(d.len(), 4);
    assert_eq!(d[2].bytes, vec![0x48, 0x8b, 0x45, 0xf8]);
    assert!(d[2].is_current && d[2].has_breakpoint);
    assert_eq!(d[3].call_target.as_deref(), Some("transform"));
    assert!(s.disassembly(0..16).is_empty());
    let part = s.disassembly(0x401231..0x401235);
    assert_eq!(part.len(), 2);
    assert_eq!(part[0].address, 0x401231);
    assert_eq!(part[1].address, 0x401234);
}

#[test]
fn mock_source() {
    let s = MockDebugSession::new();
    let loc = s.current_source_location().unwrap();
    assert_eq!(loc.line, 42);
    assert_eq!(loc.column, Some(8));
    let f = s.source_file(&loc.path).unwrap();
    assert_eq!(f.lines.len(), 51);
    let expected: Vec<String> = MOCK_SOURCE.lines().map(|l| l.to_string()).collect();
    assert_eq!(f.lines, expected);
    assert_eq!(f.lines[0], "fn main() {");
    assert_eq!(f.lines[3], "    let data = vec![1, 2, 3, 4, 5];");
    assert_eq!(f.breakpoints, vec![10, 42]);
    assert_eq!(f.executable_lines.len(), 22);
    assert_eq!(f.path, loc.path);
    assert!(s.source_file(&SourcePath("other.rs".to_string())).is_none());
}
