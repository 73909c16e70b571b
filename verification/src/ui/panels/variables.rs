//! Variable inspector panel: variables with their ownership state, as an
//! expandable tree.

use vstd::prelude::*;
use crate::text::{joined, hex, prefixed_hex, str_eq, zero_padded};
use crate::ui::theme::Color;
use crate::ui::widgets::ownership_badge::{ownership_colors, should_strikethrough, spec_badge};
use crate::ui_types::{OwnershipState, Variable};

verus! {

/// The path of a variable named `name` inside the variable at `path`
/// (empty at the top level): `path.name`.
pub open spec fn full_path(path: Seq<char>, name: Seq<char>) -> Seq<char> {
    if path.len() == 0 {
        name
    } else {
        path + seq!['.'] + name
    }
}

/// The variables shown, in order, each with its depth and path: a variable,
/// then (when it has children and is expanded) its children, then its next
/// sibling.
pub open spec fn visible(vars: Seq<Variable>, depth: nat, path: Seq<char>, expanded: Set<Seq<char>>) -> Seq<(Variable, nat, Seq<char>)>
    decreases vars,
{
    if vars.len() == 0 {
        seq![]
    } else {
        let v = vars.last();
        let fp = full_path(path, v.name@);
        let before = visible(vars.subrange(0, vars.len() - 1), depth, path, expanded);
        let kids = if v.children@.len() > 0 && expanded.contains(fp) {
            visible(v.children@, depth + 1, fp, expanded)
        } else {
            seq![]
        };
        before + seq![(v, depth, fp)] + kids
    }
}

/// How deeply `vars` nest: one level for a variable, plus those of its
/// children.
pub open spec fn height(vars: Seq<Variable>) -> nat
    decreases vars,
{
    if vars.len() == 0 {
        0
    } else {
        let v = vars.last();
        let h = if v.children@.len() == 0 {
            1
        } else {
            1 + height(v.children@)
        };
        let t = height(vars.subrange(0, vars.len() - 1));
        if h > t {
            h
        } else {
            t
        }
    }
}

proof fn lemma_shows_concat(
    a: Seq<VariableRow>,
    ea: Seq<(Variable, nat, Seq<char>)>,
    b: Seq<VariableRow>,
    eb: Seq<(Variable, nat, Seq<char>)>,
    expanded: Set<Seq<char>>,
)
    requires
        shows(a, ea, expanded),
        shows(b, eb, expanded),
    ensures
        shows(a + b, ea + eb, expanded),
{
    assert forall|i: int| 0 <= i < (a + b).len() implies is_row(
        #[trigger] (a + b)[i],
        (ea + eb)[i].0,
        (ea + eb)[i].1,
        (ea + eb)[i].2,
        expanded,
    ) by {
        if i < a.len() {
            assert((a + b)[i] == a[i]);
            assert((ea + eb)[i] == ea[i]);
        } else {
            assert((a + b)[i] == b[i - a.len()]);
            assert((ea + eb)[i] == eb[i - a.len()]);
        }
    }
}

/// A variable with children nests one level deeper than its children.
proof fn lemma_height_ge(vars: Seq<Variable>, i: int)
    requires
        0 <= i < vars.len(),
        vars[i].children@.len() > 0,
    ensures
        height(vars) >= 1 + height(vars[i].children@),
    decreases vars.len(),
{
    if i < vars.len() - 1 {
        let front = vars.subrange(0, vars.len() - 1);
        assert(front[i] == vars[i]);
        lemma_height_ge(front, i);
    }
}

/// How deeply `vars` nest, when that fits in a `usize`.
pub fn nesting_height(vars: &[Variable]) -> (h: Option<usize>)
    ensures
        match h {
            Some(x) => x == height(vars@),
            None => height(vars@) > usize::MAX,
        },
    decreases vars@,
{
    let n = vars.len();
    let mut best: usize = 0;
    let mut i: usize = 0;
    assert(vars@.subrange(0, 0) =~= Seq::<Variable>::empty());
    while i < n
        invariant
            n == vars@.len(),
            i <= n,
            best == height(vars@.subrange(0, i as int)),
        decreases n - i,
    {
        let v = &vars[i];
        let ghost prefix = vars@.subrange(0, i + 1);
        assert(prefix.subrange(0, i as int) =~= vars@.subrange(0, i as int));
        assert(prefix.last() == vars@[i as int]);
        let h = if v.children.len() == 0 {
            1
        } else {
            match nesting_height(v.children.as_slice()) {
                Some(k) => {
                    if k == usize::MAX {
                        proof {
                            lemma_height_prefix(vars@, i as int + 1);
                        }
                        return None;
                    }
                    k + 1
                },
                None => {
                    proof {
                        lemma_height_prefix(vars@, i as int + 1);
                    }
                    return None;
                },
            }
        };
        if h > best {
            best = h;
        }
        i = i + 1;
    }
    assert(vars@.subrange(0, n as int) =~= vars@);
    Some(best)
}

/// A prefix of `vars` nests no deeper than `vars`.
proof fn lemma_height_prefix(vars: Seq<Variable>, k: int)
    requires
        0 <= k <= vars.len(),
    ensures
        height(vars.subrange(0, k)) <= height(vars),
    decreases vars.len(),
{
    if k < vars.len() {
        let front = vars.subrange(0, vars.len() - 1);
        assert(front.subrange(0, k) =~= vars.subrange(0, k));
        lemma_height_prefix(front, k);
    } else {
        assert(vars.subrange(0, k) =~= vars);
    }
}

/// What the panel shows of one variable.
#[derive(Debug)]
pub struct VariableRow {
    /// Nesting depth, for indentation.
    pub depth: usize,
    /// The variable's path, which keys its expanded state.
    pub path: String,
    pub name: String,
    /// For a variable with children, whether it is expanded (`▼`) or not (`▶`).
    pub expander: Option<bool>,
    /// Whether to show the name struck through and gray.
    pub struck: bool,
    /// The ownership badge (background, text color, label), when shown.
    pub badge: Option<(Color, Color, &'static str)>,
    /// The type text.
    pub type_text: String,
    /// The value text.
    pub value_text: String,
    /// Whether the value is shown as optimized out (italic, gray).
    pub optimized_out: bool,
    /// `@ 0x<address>`, when the address is known.
    pub address_text: Option<String>,
}

/// Whether `row` shows variable `v` at `depth` and `path`.
pub open spec fn is_row(row: VariableRow, v: Variable, depth: nat, path: Seq<char>, expanded: Set<Seq<char>>) -> bool {
    &&& row.depth == depth
    &&& row.path@ == path
    &&& row.name@ == v.name@
    &&& row.expander == if v.children@.len() > 0 {
        Some(expanded.contains(path))
    } else {
        None::<bool>
    }
    &&& row.struck == (v.ownership is MovedFrom || v.ownership is Dropped || v.is_optimized_out)
    &&& if !(v.ownership is Owned) || v.is_optimized_out {
        row.badge matches Some(b) && (b.0, b.1, b.2@) == spec_badge(v.ownership)
    } else {
        row.badge is None
    }
    &&& row.type_text@ == v.rust_type.full@
    &&& row.value_text@ == if v.is_optimized_out {
        "(optimized out)"@
    } else {
        v.value.display@
    }
    &&& row.optimized_out == v.is_optimized_out
    &&& match v.address {
        Some(a) => row.address_text matches Some(t) && t@ == "@ 0x"@ + hex(a as nat),
        None => row.address_text is None,
    }
}

/// Whether `rows` show the entries `entries`.
pub open spec fn shows(rows: Seq<VariableRow>, entries: Seq<(Variable, nat, Seq<char>)>, expanded: Set<Seq<char>>) -> bool {
    &&& rows.len() == entries.len()
    &&& forall|i: int| 0 <= i < rows.len() ==> is_row(#[trigger] rows[i], entries[i].0, entries[i].1, entries[i].2, expanded)
}

/// State of the variables panel: the paths of the expanded variables.
pub struct VariablesPanel {
    expanded: Vec<String>,
}

/// `s` with `p` added if absent, removed if present.
pub open spec fn toggled(s: Set<Seq<char>>, p: Seq<char>) -> Set<Seq<char>> {
    if s.contains(p) {
        s.remove(p)
    } else {
        s.insert(p)
    }
}

impl VariablesPanel {
    /// The paths of the expanded variables.
    pub closed spec fn spec_expanded(&self) -> Set<Seq<char>> {
        Set::new(|p: Seq<char>| exists|i: int| 0 <= i < self.expanded@.len() && self.expanded@[i]@ == p)
    }

    /// A panel with every variable collapsed.
    pub fn new() -> (p: Self)
        ensures
            p.spec_expanded() == Set::<Seq<char>>::empty(),
    {
        let p = VariablesPanel { expanded: Vec::new() };
        assert(p.spec_expanded() =~= Set::<Seq<char>>::empty());
        p
    }

    /// Whether the variable at `path` is expanded.
    pub fn is_expanded(&self, path: &str) -> (r: bool)
        ensures
            r == self.spec_expanded().contains(path@),
    {
        let mut i: usize = 0;
        while i < self.expanded.len()
            invariant
                i <= self.expanded@.len(),
                forall|j: int| 0 <= j < i ==> self.expanded@[j]@ != path@,
            decreases self.expanded.len() - i,
        {
            if str_eq(self.expanded[i].as_str(), path) {
                return true;
            }
            i = i + 1;
        }
        false
    }

    /// Expands the variable at `path` if collapsed, collapses it if
    /// expanded (the user clicked its expander).
    pub fn toggle(&mut self, path: &str)
        ensures
            final(self).spec_expanded() == toggled(old(self).spec_expanded(), path@),
    {
        if self.is_expanded(path) {
            let mut kept: Vec<String> = Vec::new();
            let mut i: usize = 0;
            let n = self.expanded.len();
            while i < n
                invariant
                    n == self.expanded@.len(),
                    i <= n,
                    forall|j: int| 0 <= j < kept@.len() ==> kept@[j]@ != path@,
                    forall|j: int| 0 <= j < kept@.len() ==> exists|k: int| 0 <= k < i && self.expanded@[k]@ == #[trigger] kept@[j]@,
                    forall|k: int| 0 <= k < i && self.expanded@[k]@ != path@ ==> exists|j: int| 0 <= j < kept@.len() && kept@[j]@ == #[trigger] self.expanded@[k]@,
                decreases n - i,
            {
                let ghost old_kept = kept@;
                if !str_eq(self.expanded[i].as_str(), path) {
                    kept.push(self.expanded[i].clone());
                    assert(kept@[kept@.len() - 1]@ == self.expanded@[i as int]@);
                }
                proof {
                    assert forall|k: int| 0 <= k < i + 1 && self.expanded@[k]@ != path@ implies exists|j: int| 0 <= j < kept@.len() && kept@[j]@ == #[trigger] self.expanded@[k]@ by {
                        if k < i {
                            let j = choose|j: int| 0 <= j < old_kept.len() && old_kept[j]@ == self.expanded@[k]@;
                            assert(kept@[j] == old_kept[j]);
                        } else {
                            assert(kept@[kept@.len() - 1]@ == self.expanded@[k]@);
                        }
                    }
                    assert forall|j: int| 0 <= j < kept@.len() implies exists|k: int| 0 <= k < i + 1 && self.expanded@[k]@ == #[trigger] kept@[j]@ by {
                        if j < old_kept.len() {
                            assert(kept@[j] == old_kept[j]);
                            let k = choose|k: int| 0 <= k < i && self.expanded@[k]@ == old_kept[j]@;
                            assert(self.expanded@[k]@ == kept@[j]@);
                        } else {
                            assert(self.expanded@[i as int]@ == kept@[j]@);
                        }
                    }
                }
                i = i + 1;
            }
            let ghost before = self.spec_expanded();
            self.expanded = kept;
            assert(self.spec_expanded() =~= before.remove(path@));
        } else {
            let ghost before = self.spec_expanded();
            let ghost old_vec = self.expanded@;
            self.expanded.push(String::from_str(path));
            proof {
                assert(self.expanded@[self.expanded@.len() - 1]@ == path@);
                assert forall|q: Seq<char>| before.insert(path@).contains(q) implies self.spec_expanded().contains(q) by {
                    if q != path@ {
                        let k = choose|k: int| 0 <= k < old_vec.len() && old_vec[k]@ == q;
                        assert(self.expanded@[k] == old_vec[k]);
                    }
                }
                assert forall|q: Seq<char>| self.spec_expanded().contains(q) implies before.insert(path@).contains(q) by {
                    let k = choose|k: int| 0 <= k < self.expanded@.len() && self.expanded@[k]@ == q;
                    if k < old_vec.len() {
                        assert(self.expanded@[k] == old_vec[k]);
                    }
                }
                assert(self.spec_expanded() =~= before.insert(path@));
            }
        }
    }

    /// The row for variable `v` at `depth` and `path`.
    fn row(&self, v: &Variable, depth: usize, path: String) -> (row: VariableRow)
        ensures
            is_row(row, *v, depth as nat, path@, self.spec_expanded()),
    {
        let expander = if v.children.len() > 0 {
            Some(self.is_expanded(path.as_str()))
        } else {
            None
        };
        let struck = should_strikethrough(&v.ownership) || v.is_optimized_out;
        let owned = match v.ownership {
            OwnershipState::Owned => true,
            _ => false,
        };
        let badge = if !owned || v.is_optimized_out {
            Some(ownership_colors(&v.ownership))
        } else {
            None
        };
        let value_text = if v.is_optimized_out {
            String::from_str("(optimized out)")
        } else {
            String::from_str(v.value.display())
        };
        let address_text = match v.address {
            Some(a) => {
                let h = prefixed_hex(a, 0);
                assert(zero_padded(hex(a as nat), 0) == hex(a as nat));
                let s = joined("@ ", h.as_str());
                proof {
                    reveal_strlit("@ ");
                    reveal_strlit("0x");
                    reveal_strlit("@ 0x");
                    assert(s@ =~= "@ 0x"@ + hex(a as nat));
                }
                Some(s)
            },
            None => None,
        };
        VariableRow {
            depth,
            path,
            name: v.name.clone(),
            expander,
            struck,
            badge,
            type_text: String::from_str(v.rust_type.display()),
            value_text,
            optimized_out: v.is_optimized_out,
            address_text,
        }
    }

    /// Appends the rows of `vars`, at `depth` inside the variable at `path`.
    fn push_rows(&self, vars: &[Variable], depth: usize, path: &str, out: &mut Vec<VariableRow>)
        requires
            depth + height(vars@) <= usize::MAX,
        ensures
            final(out)@.len() >= old(out)@.len(),
            final(out)@.subrange(0, old(out)@.len() as int) == old(out)@,
            shows(
                final(out)@.subrange(old(out)@.len() as int, final(out)@.len() as int),
                visible(vars@, depth as nat, path@, self.spec_expanded()),
                self.spec_expanded(),
            ),
        decreases vars@,
    {
        let ghost start = out@.len();
        let ghost expanded = self.spec_expanded();
        let n = vars.len();
        let mut i: usize = 0;
        assert(vars@.subrange(0, 0) =~= Seq::<Variable>::empty());
        while i < n
            invariant
                n == vars@.len(),
                i <= n,
                depth + height(vars@) <= usize::MAX,
                expanded == self.spec_expanded(),
                start <= out@.len(),
                out@.subrange(0, start as int) == old(out)@,
                start == old(out)@.len(),
                shows(
                    out@.subrange(start as int, out@.len() as int),
                    visible(vars@.subrange(0, i as int), depth as nat, path@, expanded),
                    expanded,
                ),
            decreases n - i,
        {
            let v = &vars[i];
            let fp = if path.is_empty() {
                v.name.clone()
            } else {
                let mut s = joined(path, ".");
                s.append(v.name.as_str());
                s
            };
            assert(fp@ == full_path(path@, v.name@)) by {
                reveal_strlit(".");
            }
            let ghost prefix = vars@.subrange(0, i + 1);
            assert(prefix.subrange(0, i as int) =~= vars@.subrange(0, i as int));
            assert(prefix.last() == vars@[i as int]);
            let ghost mid: int = out@.len() as int;
            let ghost seg_old = out@.subrange(start as int, mid as int);
            let expanded_here = v.children.len() > 0 && self.is_expanded(fp.as_str());
            let row = self.row(v, depth, fp.clone());
            let ghost grow = row;
            out.push(row);
            let ghost after_row = out@;
            assert(after_row.subrange(start as int, mid + 1) =~= seg_old.push(grow));
            assert(after_row.subrange(0, start as int) =~= old(out)@);
            if expanded_here {
                proof {
                    lemma_height_ge(vars@, i as int);
                }
                self.push_rows(v.children.as_slice(), depth + 1, fp.as_str(), out);
            }
            proof {
                let kids = if v.children@.len() > 0 && expanded.contains(fp@) {
                    visible(v.children@, depth as nat + 1, fp@, expanded)
                } else {
                    seq![]
                };
                assert(visible(prefix, depth as nat, path@, expanded) == visible(
                    vars@.subrange(0, i as int),
                    depth as nat,
                    path@,
                    expanded,
                ) + seq![(*v, depth as nat, fp@)] + kids);
                let kid_rows = out@.subrange(mid + 1, out@.len() as int);
                assert(shows(kid_rows, kids, expanded)) by {
                    if !expanded_here {
                        assert(out@ == after_row);
                        assert(kid_rows =~= Seq::<VariableRow>::empty());
                    }
                }
                assert(out@.subrange(0, mid + 1) == after_row) by {
                    if !expanded_here {
                        assert(out@ == after_row);
                        assert(out@.subrange(0, mid + 1) =~= after_row);
                    }
                }
                assert(out@.subrange(start as int, mid + 1) =~= seg_old.push(grow));
                lemma_shows_concat(seg_old, visible(vars@.subrange(0, i as int), depth as nat, path@, expanded), seq![grow], seq![(*v, depth as nat, fp@)], expanded);
                assert(seg_old + seq![grow] =~= seg_old.push(grow));
                lemma_shows_concat(
                    seg_old.push(grow),
                    visible(vars@.subrange(0, i as int), depth as nat, path@, expanded) + seq![(*v, depth as nat, fp@)],
                    kid_rows,
                    kids,
                    expanded,
                );
                assert(out@.subrange(start as int, out@.len() as int) =~= seg_old.push(grow) + kid_rows);
                assert(out@.subrange(0, start as int) =~= old(out)@);
            }
            i = i + 1;
        }
        assert(vars@.subrange(0, n as int) =~= vars@);
    }

    /// The rows the panel shows for `vars`: each variable, followed by its
    /// children when it is expanded.
    pub fn rows(&self, vars: &[Variable]) -> (rows: Vec<VariableRow>)
        requires
            height(vars@) <= usize::MAX,
        ensures
            shows(rows@, visible(vars@, 0, seq![], self.spec_expanded()), self.spec_expanded()),
    {
        let mut rows: Vec<VariableRow> = Vec::new();
        self.push_rows(vars, 0, "", &mut rows);
        proof {
            reveal_strlit("");
            assert(""@ =~= Seq::<char>::empty());
            assert(rows@.subrange(0, rows@.len() as int) =~= rows@);
        }
        rows
    }
}

impl Default for VariablesPanel {
    fn default() -> (p: Self)
        ensures
            p.spec_expanded() == Set::<Seq<char>>::empty(),
    {
        Self::new()
    }
}

/// Law: toggling a variable twice leaves the expanded set as it was.
pub proof fn lemma_toggle_twice(s: Set<Seq<char>>, p: Seq<char>)
    ensures
        toggled(toggled(s, p), p) == s,
{
    if s.contains(p) {
        assert(s.remove(p).insert(p) =~= s);
    } else {
        assert(s.insert(p).remove(p) =~= s);
    }
}


/// The first entry shown for a non-empty list of variables is its first
/// variable, at the list's depth.
proof fn lemma_visible_first(vars: Seq<Variable>, depth: nat, path: Seq<char>, expanded: Set<Seq<char>>)
    requires
        vars.len() > 0,
    ensures
        visible(vars, depth, path, expanded).len() > 0,
        visible(vars, depth, path, expanded)[0] == (vars[0], depth, full_path(path, vars[0].name@)),
    decreases vars.len(),
{
    let v = vars.last();
    let fp = full_path(path, v.name@);
    let front = vars.subrange(0, vars.len() - 1);
    let before = visible(front, depth, path, expanded);
    let kids = if v.children@.len() > 0 && expanded.contains(fp) {
        visible(v.children@, depth + 1, fp, expanded)
    } else {
        seq![]
    };
    let all = visible(vars, depth, path, expanded);
    assert(all == before + seq![(v, depth, fp)] + kids);
    if vars.len() > 1 {
        lemma_visible_first(front, depth, path, expanded);
        assert(front[0] == vars[0]);
        assert(all[0] == before[0]);
    } else {
        assert(front.len() == 0);
        assert(before == Seq::<(Variable, nat, Seq<char>)>::empty());
        assert(all[0] == (v, depth, fp));
    }
}

/// Every entry shown for a list of variables lies at the list's depth or
/// deeper.
proof fn lemma_visible_depth(vars: Seq<Variable>, depth: nat, path: Seq<char>, expanded: Set<Seq<char>>, i: int)
    requires
        0 <= i < visible(vars, depth, path, expanded).len(),
    ensures
        visible(vars, depth, path, expanded)[i].1 >= depth,
    decreases vars,
{
    let v = vars.last();
    let fp = full_path(path, v.name@);
    let front = vars.subrange(0, vars.len() - 1);
    let before = visible(front, depth, path, expanded);
    let kids = if v.children@.len() > 0 && expanded.contains(fp) {
        visible(v.children@, depth + 1, fp, expanded)
    } else {
        seq![]
    };
    let all = visible(vars, depth, path, expanded);
    assert(all == before + seq![(v, depth, fp)] + kids);
    if i < before.len() {
        assert(all[i] == before[i]);
        lemma_visible_depth(front, depth, path, expanded, i);
    } else if i > before.len() {
        let j = i - before.len() - 1;
        assert(all[i] == kids[j]);
        lemma_visible_depth(v.children@, depth + 1, fp, expanded, j);
    }
}

/// Where an entry is followed by another: an expanded variable with
/// children by its first child, one level deeper; any other by an entry no
/// deeper than itself.
proof fn lemma_visible_next(vars: Seq<Variable>, depth: nat, path: Seq<char>, expanded: Set<Seq<char>>, i: int)
    requires
        0 <= i < visible(vars, depth, path, expanded).len(),
    ensures
        ({
            let all = visible(vars, depth, path, expanded);
            let (v, d, fp) = all[i];
            &&& v.children@.len() > 0 && expanded.contains(fp) ==> {
                &&& i + 1 < all.len()
                &&& all[i + 1] == (v.children@[0], d + 1, full_path(fp, v.children@[0].name@))
            }
            &&& !(v.children@.len() > 0 && expanded.contains(fp)) && i + 1 < all.len() ==> all[i + 1].1 <= d
        }),
    decreases vars,
{
    let v = vars.last();
    let fp = full_path(path, v.name@);
    let front = vars.subrange(0, vars.len() - 1);
    let before = visible(front, depth, path, expanded);
    let open = v.children@.len() > 0 && expanded.contains(fp);
    let kids = if open {
        visible(v.children@, depth + 1, fp, expanded)
    } else {
        seq![]
    };
    let all = visible(vars, depth, path, expanded);
    assert(all == before + seq![(v, depth, fp)] + kids);
    if i < before.len() {
        assert(all[i] == before[i]);
        lemma_visible_next(front, depth, path, expanded, i);
        if i + 1 < before.len() {
            assert(all[i + 1] == before[i + 1]);
        } else {
            assert(all[i + 1] == (v, depth, fp));
            lemma_visible_depth(front, depth, path, expanded, i);
        }
    } else if i == before.len() {
        assert(all[i] == (v, depth, fp));
        if open {
            lemma_visible_first(v.children@, depth + 1, fp, expanded);
            assert(all[i + 1] == kids[0]);
        } else {
            assert(all.len() == before.len() + 1);
        }
    } else {
        let j = i - before.len() - 1;
        assert(all[i] == kids[j]);
        lemma_visible_next(v.children@, depth + 1, fp, expanded, j);
        if i + 1 < all.len() {
            assert(all[i + 1] == kids[j + 1]);
        }
    }
}

/// Law: the rows expand in place, at every depth. A row whose variable has
/// children and is expanded is followed by the row of its first child, one
/// level deeper, at the path `path.name`; any other row is followed (if at
/// all) by a row no deeper than itself, so a collapsed variable hides its
/// children.
pub proof fn lemma_rows_expand_in_place(
    rows: Seq<VariableRow>,
    vars: Seq<Variable>,
    depth: nat,
    path: Seq<char>,
    expanded: Set<Seq<char>>,
    i: int,
)
    requires
        shows(rows, visible(vars, depth, path, expanded), expanded),
        0 <= i < rows.len(),
    ensures
        rows[i].expander == Some(true) ==> {
            &&& i + 1 < rows.len()
            &&& rows[i + 1].depth == rows[i].depth + 1
            &&& rows[i + 1].path@ == full_path(rows[i].path@, rows[i + 1].name@)
        },
        rows[i].expander != Some(true) && i + 1 < rows.len() ==> rows[i + 1].depth <= rows[i].depth,
{
    let all = visible(vars, depth, path, expanded);
    lemma_visible_next(vars, depth, path, expanded, i);
    assert(is_row(rows[i], all[i].0, all[i].1, all[i].2, expanded));
    if i + 1 < rows.len() {
        assert(is_row(rows[i + 1], all[i + 1].0, all[i + 1].1, all[i + 1].2, expanded));
    }
}
} // verus!
