//! The panels that the docking layout can hold.

use vstd::prelude::*;

verus! {

/// Panel types that can be docked.
#[derive(Debug, Clone, Copy, PartialEq, Eq, Hash, Structural)]
pub enum PanelType {
    Variables,
    CallStack,
    Registers,
    Memory,
    Disassembly,
    Breakpoints,
    Source,
}

/// The tab title of a panel type.
pub open spec fn spec_title(p: PanelType) -> Seq<char> {
    match p {
        PanelType::Variables => "Variables"@,
        PanelType::CallStack => "Call Stack"@,
        PanelType::Registers => "Registers"@,
        PanelType::Memory => "Memory"@,
        PanelType::Disassembly => "Disassembly"@,
        PanelType::Breakpoints => "Breakpoints"@,
        PanelType::Source => "Source"@,
    }
}

/// Every panel type, in the order of the default layout.
pub open spec fn spec_all_panels() -> Seq<PanelType> {
    seq![
        PanelType::Source,
        PanelType::Variables,
        PanelType::CallStack,
        PanelType::Registers,
        PanelType::Disassembly,
        PanelType::Memory,
        PanelType::Breakpoints,
    ]
}

impl PanelType {
    /// The tab title.
    pub fn title(&self) -> (t: &'static str)
        ensures
            t@ == spec_title(*self),
    {
        match self {
            PanelType::Variables => "Variables",
            PanelType::CallStack => "Call Stack",
            PanelType::Registers => "Registers",
            PanelType::Memory => "Memory",
            PanelType::Disassembly => "Disassembly",
            PanelType::Breakpoints => "Breakpoints",
            PanelType::Source => "Source",
        }
    }

    /// Every panel type, in the order of the default layout.
    pub fn all() -> (v: Vec<PanelType>)
        ensures
            v@ == spec_all_panels(),
    {
        let v = vec![
            PanelType::Source,
            PanelType::Variables,
            PanelType::CallStack,
            PanelType::Registers,
            PanelType::Disassembly,
            PanelType::Memory,
            PanelType::Breakpoints,
        ];
        assert(v@ =~= spec_all_panels());
        v
    }
}

/// Law: the list of all panel types holds every panel type exactly once.
pub proof fn lemma_all_panels_once(p: PanelType)
    ensures
        spec_all_panels().contains(p),
        forall|i: int, j: int|
            0 <= i < j < spec_all_panels().len() ==> spec_all_panels()[i] != spec_all_panels()[j],
{
    let all = spec_all_panels();
    match p {
        PanelType::Source => assert(all[0] == p),
        PanelType::Variables => assert(all[1] == p),
        PanelType::CallStack => assert(all[2] == p),
        PanelType::Registers => assert(all[3] == p),
        PanelType::Disassembly => assert(all[4] == p),
        PanelType::Memory => assert(all[5] == p),
        PanelType::Breakpoints => assert(all[6] == p),
    }
}

/// Law: different panel types have different titles.
pub proof fn lemma_titles_distinct(p: PanelType, q: PanelType)
    ensures
        p != q ==> spec_title(p) != spec_title(q),
{
    reveal_strlit("Variables");
    reveal_strlit("Call Stack");
    reveal_strlit("Registers");
    reveal_strlit("Memory");
    reveal_strlit("Disassembly");
    reveal_strlit("Breakpoints");
    reveal_strlit("Source");
    if p != q {
        let a = spec_title(p);
        let b = spec_title(q);
        if a.len() == b.len() {
            assert(a[0] != b[0] || a[1] != b[1] || a[2] != b[2]);
        }
    }
}

} // verus!
