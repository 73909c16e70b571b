//! The table of x86-64 registers the debugger knows, and lookups in it.

use vstd::prelude::*;
use crate::error::Error;
use crate::text::{decimal, numeral_string, str_eq};

verus! {

/// Identifies a register of the table.
#[allow(non_camel_case_types)]
#[derive(PartialEq, Eq, Copy, Clone, Debug, Structural)]
pub enum RegisterId {
    rax,
}

impl RegisterId {
    /// The identifier's name as `Debug` prints it.
    pub open spec fn spec_debug_name(self) -> Seq<char> {
        match self {
            RegisterId::rax => seq!['r', 'a', 'x'],
        }
    }

    /// The identifier's name as `Debug` prints it.
    pub fn debug_name(&self) -> (s: String)
        ensures
            s@ == self.spec_debug_name(),
    {
        match self {
            RegisterId::rax => {
                let s = String::from_str("rax");
                proof {
                    reveal_strlit("rax");
                }
                s
            },
        }
    }
}

/// What part of the register file a register belongs to.
#[derive(PartialEq, Eq, Copy, Clone, Debug, Structural)]
pub enum RegisterType {
    /// A 64-bit general-purpose register.
    Gpr,
    /// A narrower view of a general-purpose register.
    SubGpr,
    /// A floating-point or vector register.
    Fpr,
    /// A debug register.
    Dr,
}

/// How the bytes of a register are read.
#[derive(PartialEq, Eq, Copy, Clone, Debug, Structural)]
pub enum RegisterFormat {
    Uint,
    DoubleFloat,
    LongDouble,
    Vector,
}

/// A register: its name, DWARF number, and where its bytes lie in the
/// `user` area of a traced process.
#[derive(Copy, Clone, Debug)]
pub struct RegisterInfo {
    pub id: RegisterId,
    pub name: &'static str,
    pub dwarf_id: Option<u32>,
    pub size: usize,
    pub offset: usize,
    pub kind: RegisterType,
    pub format: RegisterFormat,
}

/// Offset of `regs.rax` in the x86-64 `user` area.
pub const RAX_OFFSET: usize = 80;

/// The register table.
pub open spec fn spec_register_infos() -> Seq<RegisterInfo> {
    seq![
        RegisterInfo {
            id: RegisterId::rax,
            name: "rax",
            dwarf_id: Some(0u32),
            size: 8,
            offset: RAX_OFFSET,
            kind: RegisterType::Gpr,
            format: RegisterFormat::Uint,
        },
    ]
}

/// The register table.
pub fn register_infos() -> (infos: Vec<RegisterInfo>)
    ensures
        infos@ == spec_register_infos(),
{
    let infos = vec![
        RegisterInfo {
            id: RegisterId::rax,
            name: "rax",
            dwarf_id: Some(0u32),
            size: 8,
            offset: RAX_OFFSET,
            kind: RegisterType::Gpr,
            format: RegisterFormat::Uint,
        },
    ];
    assert(infos@ =~= spec_register_infos());
    infos
}

/// Position of the first entry of `infos` satisfying `p` (any position
/// when none does).
pub open spec fn first_index(infos: Seq<RegisterInfo>, p: spec_fn(RegisterInfo) -> bool) -> int {
    choose|j: int| 0 <= j < infos.len() && p(infos[j]) && forall|k: int| 0 <= k < j ==> !p(infos[k])
}

/// The first entry of the table satisfying `p`, or `None` when no entry does.
pub open spec fn lookup(p: spec_fn(RegisterInfo) -> bool) -> Option<RegisterInfo> {
    let infos = spec_register_infos();
    if exists|j: int| 0 <= j < infos.len() && p(infos[j]) {
        Some(infos[first_index(infos, p)])
    } else {
        None
    }
}

/// An entry found at `i`, with no earlier entry satisfying `p`, is the
/// entry that `lookup` names.
proof fn lemma_first_found(infos: Seq<RegisterInfo>, p: spec_fn(RegisterInfo) -> bool, i: int)
    requires
        infos == spec_register_infos(),
        0 <= i < infos.len(),
        p(infos[i]),
        forall|k: int| 0 <= k < i ==> !p(infos[k]),
    ensures
        lookup(p) == Some(infos[i]),
{
    let j = first_index(infos, p);
    assert(0 <= j < infos.len() && p(infos[j]) && forall|k: int| 0 <= k < j ==> !p(infos[k]));
    if j < i {
        assert(!p(infos[j]));
    } else if i < j {
        assert(!p(infos[i]));
    }
}

/// Whether an entry holds this id.
pub open spec fn has_id(id: RegisterId) -> spec_fn(RegisterInfo) -> bool {
    |i: RegisterInfo| i.id == id
}

/// Whether an entry holds this name.
pub open spec fn has_name(name: Seq<char>) -> spec_fn(RegisterInfo) -> bool {
    |i: RegisterInfo| i.name@ == name
}

/// Whether an entry holds this DWARF register number.
pub open spec fn has_dwarf(dwarf_id: u32) -> spec_fn(RegisterInfo) -> bool {
    |i: RegisterInfo| i.dwarf_id == Some(dwarf_id)
}

/// The `Debug` rendering of a string: quoted, with escapes.
pub uninterp spec fn str_debug(s: Seq<char>) -> Seq<char>;

/// Renders a string as `{:?}` does (the standard library's `Debug` for
/// `str`); the result is named, not spelled out: quotes around the
/// characters, with the escapes of `char::escape_debug`.
#[verifier::external_body]
fn debug_str(s: &str) -> (r: String)
    ensures
        r@ == str_debug(s@),
{
    format!("{s:?}")
}

impl RegisterInfo {
    /// The entry with this id.
    pub fn by_id(id: RegisterId) -> (r: Result<RegisterInfo, Error>)
        ensures
            match lookup(has_id(id)) {
                Some(info) => r matches Ok(found) && found == info,
                None => r matches Err(Error::NoSuchRegister(m)) && m@ == id.spec_debug_name(),
            },
    {
        let infos = register_infos();
        let mut i: usize = 0;
        while i < infos.len()
            invariant
                infos@ == spec_register_infos(),
                i <= infos.len(),
                forall|k: int| 0 <= k < i ==> !has_id(id)(infos@[k]),
            decreases infos.len() - i,
        {
            if infos[i].id == id {
                proof {
                    lemma_first_found(infos@, has_id(id), i as int);
                }
                return Ok(infos[i]);
            }
            i = i + 1;
        }
        Err(Error::NoSuchRegister(id.debug_name()))
    }

    /// The entry with this name.
    pub fn by_name(name: &str) -> (r: Result<RegisterInfo, Error>)
        ensures
            match lookup(has_name(name@)) {
                Some(info) => r matches Ok(found) && found == info,
                None => r matches Err(Error::NoSuchRegister(m)) && m@ == str_debug(name@),
            },
    {
        let infos = register_infos();
        let mut i: usize = 0;
        while i < infos.len()
            invariant
                infos@ == spec_register_infos(),
                i <= infos.len(),
                forall|k: int| 0 <= k < i ==> !has_name(name@)(infos@[k]),
            decreases infos.len() - i,
        {
            if str_eq(infos[i].name, name) {
                proof {
                    lemma_first_found(infos@, has_name(name@), i as int);
                }
                return Ok(infos[i]);
            }
            i = i + 1;
        }
        Err(Error::NoSuchRegister(debug_str(name)))
    }

    /// The entry with this DWARF register number.
    pub fn by_dwarf(dwarf_id: u32) -> (r: Result<RegisterInfo, Error>)
        ensures
            match lookup(has_dwarf(dwarf_id)) {
                Some(info) => r matches Ok(found) && found == info,
                None => r matches Err(Error::NoSuchRegister(m)) && m@ == decimal(dwarf_id as nat),
            },
    {
        let infos = register_infos();
        let mut i: usize = 0;
        while i < infos.len()
            invariant
                infos@ == spec_register_infos(),
                i <= infos.len(),
                forall|k: int| 0 <= k < i ==> !has_dwarf(dwarf_id)(infos@[k]),
            decreases infos.len() - i,
        {
            let matches = match infos[i].dwarf_id {
                Some(d) => d == dwarf_id,
                None => false,
            };
            if matches {
                proof {
                    lemma_first_found(infos@, has_dwarf(dwarf_id), i as int);
                }
                return Ok(infos[i]);
            }
            i = i + 1;
        }
        let msg = numeral_string(dwarf_id as u64, 10, 0);
        assert(msg@ == decimal(dwarf_id as nat));
        Err(Error::NoSuchRegister(msg))
    }
}

} // verus!

verus! {

/// Law: every entry of the table can be read, lies within the `user`
/// area, and lies within the part of it that its kind names.
pub proof fn lemma_register_table_well_formed(i: int)
    requires
        0 <= i < spec_register_infos().len(),
    ensures
        ({
            let e = spec_register_infos()[i];
            &&& crate::process::readable(e)
            &&& e.offset + e.size <= crate::process::USER_AREA_SIZE
            &&& (e.kind == RegisterType::Gpr || e.kind == RegisterType::SubGpr) ==> e.offset + e.size
                <= crate::process::GPRS_OFFSET + crate::process::GPRS_SIZE
            &&& e.kind == RegisterType::Fpr ==> crate::process::FPREGS_OFFSET <= e.offset && e.offset
                + e.size <= crate::process::FPREGS_OFFSET + crate::process::FPREGS_SIZE
            &&& e.kind == RegisterType::Dr ==> crate::process::DEBUG_REGS_OFFSET <= e.offset
                && e.offset + e.size <= crate::process::USER_AREA_SIZE
        }),
{
}

/// Law: ids, names and DWARF numbers each name at most one entry.
pub proof fn lemma_register_table_unique(i: int, j: int)
    requires
        0 <= i < spec_register_infos().len(),
        0 <= j < spec_register_infos().len(),
    ensures
        spec_register_infos()[i].id == spec_register_infos()[j].id ==> i == j,
        spec_register_infos()[i].name@ == spec_register_infos()[j].name@ ==> i == j,
        (spec_register_infos()[i].dwarf_id is Some && spec_register_infos()[i].dwarf_id
            == spec_register_infos()[j].dwarf_id) ==> i == j,
{
}

/// Law: looking an entry up by its id, its name or its DWARF number finds
/// that entry.
pub proof fn lemma_lookup_finds_entry(i: int)
    requires
        0 <= i < spec_register_infos().len(),
    ensures
        lookup(has_id(spec_register_infos()[i].id)) == Some(spec_register_infos()[i]),
        lookup(has_name(spec_register_infos()[i].name@)) == Some(spec_register_infos()[i]),
        spec_register_infos()[i].dwarf_id matches Some(d) ==> lookup(has_dwarf(d)) == Some(
            spec_register_infos()[i],
        ),
{
    let infos = spec_register_infos();
    let e = infos[i];
    assert forall|k: int| 0 <= k < i implies !has_id(e.id)(infos[k]) by {
        lemma_register_table_unique(k, i);
    }
    lemma_first_found(infos, has_id(e.id), i);
    assert forall|k: int| 0 <= k < i implies !has_name(e.name@)(infos[k]) by {
        lemma_register_table_unique(k, i);
    }
    lemma_first_found(infos, has_name(e.name@), i);
    if let Some(d) = e.dwarf_id {
        assert forall|k: int| 0 <= k < i implies !has_dwarf(d)(infos[k]) by {
            lemma_register_table_unique(k, i);
        }
        lemma_first_found(infos, has_dwarf(d), i);
    }
}

} // verus!
