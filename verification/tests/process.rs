use anteater::error::Error;
use anteater::process::{
    Process, ProcessState, StopReason, TeardownStep, UserAreaWrite, WaitOutcome, FPREGS_OFFSET,
    FPREGS_SIZE, USER_AREA_SIZE,
};
use anteater::register_info::{register_infos, RegisterFormat, RegisterId, RegisterInfo, RegisterType};
use anteater::registers::Value;

fn info(offset: usize, size: usize, kind: RegisterType, format: RegisterFormat) -> RegisterInfo {
    RegisterInfo { id: RegisterId::rax, name: "test", dwarf_id: None, size, offset, kind, format }
}

#[test]
fn attach_invalid_pid() {
    assert!(Process::new_attached(0).is_err());
}

#[test]
fn attach_invalid_pid_message() {
    match Process::new_attached(0) {
        Err(Error::InvalidArg(m)) => assert_eq!(m, "Invalid PID"),
        _ => panic!("expected an invalid argument"),
    }
}

#[test]
fn attached_record() {
    let p = Process::new_attached(1234).unwrap();
    assert_eq!(p.pid(), 1234);
    assert_eq!(p.state(), ProcessState::Stopped);
    assert_eq!(p.data().len(), USER_AREA_SIZE);
    assert!(p.data().iter().all(|b| *b == 0));
    assert_eq!(p.teardown_plan(), vec![TeardownStep::Detach, TeardownStep::Continue]);
}

#[test]
fn launched_record_and_teardown() {
    let mut p = Process::new_launched(77, true);
    assert_eq!(p.state(), ProcessState::Stopped);
    assert_eq!(p.teardown_plan(), vec![TeardownStep::Detach, TeardownStep::Continue, TeardownStep::Kill]);
    p.record_resume();
    assert_eq!(p.state(), ProcessState::Running);
    assert_eq!(
        p.teardown_plan(),
        vec![TeardownStep::Interrupt, TeardownStep::Detach, TeardownStep::Continue, TeardownStep::Kill]
    );
    let q = Process::new_launched(78, false);
    assert_eq!(q.teardown_plan(), vec![TeardownStep::Kill]);
    let z = Process::new_launched(0, true);
    assert_eq!(z.teardown_plan(), vec![]);
}

#[test]
fn wait_outcomes() {
    let mut p = Process::new_launched(5, true);
    p.record_resume();
    let r = p.record_wait(WaitOutcome::Stopped(5));
    assert_eq!(r, StopReason { state: ProcessState::Stopped, info: 5 });
    assert_eq!(p.state(), ProcessState::Stopped);
    let r = p.record_wait(WaitOutcome::Exited(256 + 3));
    assert_eq!(r, StopReason { state: ProcessState::Exited, info: 3 });
    assert_eq!(p.state(), ProcessState::Exited);
    let r = p.record_wait(WaitOutcome::Signaled(9));
    assert_eq!(r, StopReason { state: ProcessState::Terminated, info: 9 });
    assert_eq!(p.state(), ProcessState::Terminated);
}

#[test]
fn store_and_read_rax() {
    let mut p = Process::new_launched(1, true);
    let rax = register_infos()[0];
    p.store_user_bytes(80, &0x1122_3344_5566_7788u64.to_le_bytes());
    assert_eq!(p.read_register(&rax), Value::U64(0x1122_3344_5566_7788));
}

#[test]
fn write_then_read_rax() {
    let mut p = Process::new_launched(1, true);
    let rax = register_infos()[0];
    let w = p.write_register(&rax, Value::U64(0xdead_beef_0000_0001));
    assert_eq!(p.read_register(&rax), Value::U64(0xdead_beef_0000_0001));
    match w {
        UserAreaWrite::Word { offset, value } => {
            assert_eq!(offset, 80);
            assert_eq!(value, 0xdead_beef_0000_0001);
        }
        _ => panic!("expected a word write"),
    }
}

#[test]
fn sub_register_write_is_aligned_word() {
    let mut p = Process::new_launched(1, true);
    p.store_user_bytes(80, &0x1111_1111_1111_1111u64.to_le_bytes());
    // The high byte of the low 16 bits (like `ah`).
    let ah = info(81, 1, RegisterType::SubGpr, RegisterFormat::Uint);
    let w = p.write_register(&ah, Value::U8(0xab));
    assert_eq!(p.read_register(&ah), Value::U8(0xab));
    match w {
        UserAreaWrite::Word { offset, value } => {
            assert_eq!(offset, 80);
            assert_eq!(value, 0x1111_1111_1111_ab11);
        }
        _ => panic!("expected a word write"),
    }
}

#[test]
fn signed_values_are_sign_extended() {
    let mut p = Process::new_launched(1, true);
    let r8 = info(80, 8, RegisterType::Gpr, RegisterFormat::Uint);
    p.write_register(&r8, Value::I8(-2));
    assert_eq!(p.read_register(&r8), Value::U64(0xffff_ffff_ffff_fffe));
    let r4 = info(88, 4, RegisterType::SubGpr, RegisterFormat::Uint);
    p.write_register(&r4, Value::I32(-1));
    assert_eq!(p.read_register(&r4), Value::U32(0xffff_ffff));
    let r2 = info(96, 2, RegisterType::SubGpr, RegisterFormat::Uint);
    p.write_register(&r2, Value::I64(0x1_2345));
    assert_eq!(p.read_register(&r2), Value::U16(0x2345));
}

#[test]
fn unsigned_values_are_zero_extended_or_truncated() {
    let mut p = Process::new_launched(1, true);
    let r8 = info(80, 8, RegisterType::Gpr, RegisterFormat::Uint);
    p.store_user_bytes(80, &[0xff; 8]);
    p.write_register(&r8, Value::U8(7));
    assert_eq!(p.read_register(&r8), Value::U64(7));
    let r1 = info(80, 1, RegisterType::SubGpr, RegisterFormat::Uint);
    p.write_register(&r1, Value::U32(0x1234_5678));
    assert_eq!(p.read_register(&r1), Value::U8(0x78));
    assert_eq!(p.read_register(&r8), Value::U64(0x78));
}

#[test]
fn floating_register_writes_whole_fp_state() {
    let mut p = Process::new_launched(1, true);
    let xmm0 = info(FPREGS_OFFSET + 160, 16, RegisterType::Fpr, RegisterFormat::Vector);
    let bytes: [u8; 16] = [1, 2, 3, 4, 5, 6, 7, 8, 9, 10, 11, 12, 13, 14, 15, 16];
    let w = p.write_register(&xmm0, Value::Byte128(bytes));
    assert_eq!(p.read_register(&xmm0), Value::Byte128(bytes));
    match w {
        UserAreaWrite::FloatingPoint(fp) => {
            assert_eq!(fp.len(), FPREGS_SIZE);
            assert_eq!(&fp[160..176], &bytes);
        }
        _ => panic!("expected the floating-point state"),
    }
    let mm0 = info(FPREGS_OFFSET + 32, 8, RegisterType::Fpr, RegisterFormat::Vector);
    p.write_register(&mm0, Value::Byte64([9; 8]));
    assert_eq!(p.read_register(&mm0), Value::Byte64([9; 8]));
    let st0 = info(FPREGS_OFFSET + 32, 16, RegisterType::Fpr, RegisterFormat::LongDouble);
    let mut expect = [0u8; 16];
    expect[..8].copy_from_slice(&[9; 8]);
    assert_eq!(p.read_register(&st0), Value::Byte128(expect));
    let d = info(FPREGS_OFFSET + 48, 8, RegisterType::Fpr, RegisterFormat::DoubleFloat);
    p.write_register(&d, Value::Double(1.5f64.to_bits()));
    assert_eq!(p.read_register(&d), Value::Double(1.5f64.to_bits()));
}

#[test]
fn write_leaves_other_registers() {
    let mut p = Process::new_launched(1, true);
    let a = info(80, 8, RegisterType::Gpr, RegisterFormat::Uint);
    let b = info(88, 8, RegisterType::Gpr, RegisterFormat::Uint);
    p.write_register(&a, Value::U64(1));
    p.write_register(&b, Value::U64(2));
    assert_eq!(p.read_register(&a), Value::U64(1));
    assert_eq!(p.read_register(&b), Value::U64(2));
    p.write_register(&a, Value::U64(3));
    assert_eq!(p.read_register(&a), Value::U64(3));
    assert_eq!(p.read_register(&b), Value::U64(2));
}
