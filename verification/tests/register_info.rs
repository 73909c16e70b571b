use anteater::error::Error;
use anteater::process::{FPREGS_SIZE, GPRS_SIZE, USER_AREA_SIZE};
use anteater::register_info::{register_infos, RegisterFormat, RegisterId, RegisterInfo, RegisterType};
use nix::libc;

#[test]
fn rax_basics() {
    let infos = register_infos();
    assert_eq!(infos.len(), 1);
    let r = &infos[0];
    assert_eq!(r.name, "rax");
    assert_eq!(r.dwarf_id, Some(0));
    assert_eq!(r.size, 8);
    assert!(matches!(r.kind, RegisterType::Gpr));
    assert!(matches!(r.format, RegisterFormat::Uint));
}

#[test]
fn user_area_layout_matches_libc() {
    assert_eq!(core::mem::size_of::<libc::user>(), USER_AREA_SIZE);
    assert_eq!(core::mem::size_of::<libc::user_fpregs_struct>(), FPREGS_SIZE);
    assert_eq!(core::mem::size_of::<libc::user_regs_struct>(), GPRS_SIZE);
}

#[test]
fn by_id_finds_rax() {
    let r = RegisterInfo::by_id(RegisterId::rax).unwrap();
    assert_eq!(r.name, "rax");
    assert_eq!(r.offset, 80);
}

#[test]
fn by_name_finds_rax() {
    let r = RegisterInfo::by_name("rax").unwrap();
    assert_eq!(r.id, RegisterId::rax);
    assert_eq!(r.dwarf_id, Some(0));
}

#[test]
fn by_name_unknown_is_error_with_debug_quoted_name() {
    match RegisterInfo::by_name("eax") {
        Err(Error::NoSuchRegister(m)) => assert_eq!(m, "\"eax\""),
        other => panic!("unexpected {:?}", other),
    }
    match RegisterInfo::by_name("a\"b\n") {
        Err(Error::NoSuchRegister(m)) => assert_eq!(m, "\"a\\\"b\\n\""),
        other => panic!("unexpected {:?}", other),
    }
}

#[test]
fn by_dwarf_finds_rax() {
    let r = RegisterInfo::by_dwarf(0).unwrap();
    assert_eq!(r.name, "rax");
}

#[test]
fn by_dwarf_unknown_is_error_with_number() {
    match RegisterInfo::by_dwarf(49) {
        Err(Error::NoSuchRegister(m)) => assert_eq!(m, "49"),
        other => panic!("unexpected {:?}", other),
    }
    match RegisterInfo::by_dwarf(4294967295) {
        Err(Error::NoSuchRegister(m)) => assert_eq!(m, "4294967295"),
        other => panic!("unexpected {:?}", other),
    }
}

#[test]
fn register_id_debug_name() {
    assert_eq!(RegisterId::rax.debug_name(), format!("{:?}", RegisterId::rax));
}
