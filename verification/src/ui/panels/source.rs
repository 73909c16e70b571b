//! Source panel: the current file's lines, highlighted as Rust, and the
//! gutter beside each of them.

use vstd::prelude::*;
use crate::text::{decimal, right_aligned_decimal, space_padded, str_eq, string_from};
use crate::ui_types::{SourceFile, SourcePath};
use syntect::easy::HighlightLines;
use syntect::highlighting::{Theme, ThemeSet};
use syntect::parsing::{SyntaxReference, SyntaxSet};

verus! {

/// The gutter of one source line.
#[derive(Debug)]
pub struct SourceLineMark {
    /// The 1-based line number.
    pub number: u32,
    /// The line number right-aligned in four characters.
    pub number_text: String,
    /// Whether this is the current line.
    pub is_current: bool,
    /// Whether a breakpoint is set on this line.
    pub has_breakpoint: bool,
}

fn contains_line(lines: &Vec<u32>, n: u32) -> (r: bool)
    ensures
        r == lines@.contains(n),
{
    let mut i: usize = 0;
    while i < lines.len()
        invariant
            i <= lines.len(),
            forall|j: int| 0 <= j < i ==> lines@[j] != n,
        decreases lines.len() - i,
    {
        if lines[i] == n {
            assert(lines@[i as int] == n);
            return true;
        }
        i = i + 1;
    }
    false
}

/// The gutters of the lines of `file`, with `current_line` the line the
/// debuggee stopped at, if known.
pub fn source_line_marks(file: &SourceFile, current_line: Option<u32>) -> (marks: Vec<SourceLineMark>)
    ensures
        marks@.len() == file.lines@.len(),
        forall|i: int| 0 <= i < marks@.len() ==> {
            let n = (i + 1) as u32;
            &&& (#[trigger] marks@[i]).number == n
            &&& marks@[i].number_text@ == space_padded(decimal(n as nat), 4)
            &&& marks@[i].is_current == (current_line == Some(n))
            &&& marks@[i].has_breakpoint == file.breakpoints@.contains(n)
        },
{
    let count = file.lines.len();
    let mut marks: Vec<SourceLineMark> = Vec::new();
    let mut i: usize = 0;
    while i < count
        invariant
            count == file.lines@.len(),
            i <= count,
            marks@.len() == i,
            forall|k: int| 0 <= k < i ==> {
                let n = (k + 1) as u32;
                &&& (#[trigger] marks@[k]).number == n
                &&& marks@[k].number_text@ == space_padded(decimal(n as nat), 4)
                &&& marks@[k].is_current == (current_line == Some(n))
                &&& marks@[k].has_breakpoint == file.breakpoints@.contains(n)
            },
        decreases count - i,
    {
        let n = (i + 1) as u32;
        let is_current = match current_line {
            Some(c) => c == n,
            None => false,
        };
        marks.push(
            SourceLineMark {
                number: n,
                number_text: right_aligned_decimal(n as u64, 4),
                is_current,
                has_breakpoint: contains_line(&file.breakpoints, n),
            },
        );
        i = i + 1;
    }
    marks
}

} // verus!

verus! {

// ---------------------------------------------------------------------------
// Syntax highlighting (syntect)
// ---------------------------------------------------------------------------

/// A set of syntax definitions.
#[verifier::external_type_specification]
#[verifier::external_body]
pub struct ExSyntaxSet(SyntaxSet);

/// One syntax definition of a set.
#[verifier::external_type_specification]
#[verifier::external_body]
pub struct ExSyntaxReference(SyntaxReference);

/// A set of named color themes.
#[verifier::external_type_specification]
#[verifier::external_body]
pub struct ExThemeSet(ThemeSet);

/// A color theme.
#[verifier::external_type_specification]
#[verifier::external_body]
pub struct ExTheme(Theme);

/// The names of the syntaxes that a syntax set holds.
pub uninterp spec fn syntax_names(set: SyntaxSet) -> Set<Seq<char>>;

/// The names (keys) of the themes that a theme set holds.
pub uninterp spec fn theme_names(set: ThemeSet) -> Set<Seq<char>>;

/// `SyntaxSet::load_defaults_newlines`: syntect's bundled syntaxes. The
/// bundled set holds the "Plain Text" syntax (its data file names it, and
/// syntect documents that every set should).
#[verifier::external_body]
fn load_syntax_set() -> (set: SyntaxSet)
    ensures
        syntax_names(set).contains("Plain Text"@),
{
    SyntaxSet::load_defaults_newlines()
}

/// `ThemeSet::load_defaults`: syntect's bundled themes, which its
/// documentation lists, `base16-ocean.dark` among them.
#[verifier::external_body]
fn load_theme_set() -> (set: ThemeSet)
    ensures
        theme_names(set).contains("base16-ocean.dark"@),
{
    ThemeSet::load_defaults()
}

/// The syntax that `SyntaxSet::find_syntax_by_extension` finds in `set` for
/// `extension`: the last one that lists it, ignoring ASCII case, if any.
pub uninterp spec fn syntax_for_extension(set: SyntaxSet, extension: Seq<char>) -> Option<SyntaxReference>;

/// The syntax that `SyntaxSet::find_syntax_plain_text` finds in `set`.
pub uninterp spec fn plain_text_of(set: SyntaxSet) -> SyntaxReference;

/// The theme stored under `name` in a theme set.
pub uninterp spec fn theme_of(set: ThemeSet, name: Seq<char>) -> Theme;

/// `SyntaxSet::find_syntax_by_extension`: the syntax that
/// `syntax_for_extension` names for the set and the extension.
#[verifier::external_body]
fn syntax_by_extension<'a>(set: &'a SyntaxSet, extension: &str) -> (r: Option<&'a SyntaxReference>)
    ensures
        match r {
            Some(s) => syntax_for_extension(*set, extension@) == Some(*s),
            None => syntax_for_extension(*set, extension@) is None,
        },
{
    set.find_syntax_by_extension(extension)
}

/// `SyntaxSet::find_syntax_plain_text`: the "Plain Text" syntax of the set,
/// which panics when the set has none.
#[verifier::external_body]
fn plain_text_syntax<'a>(set: &'a SyntaxSet) -> (r: &'a SyntaxReference)
    requires
        syntax_names(*set).contains("Plain Text"@),
    ensures
        *r == plain_text_of(*set),
{
    set.find_syntax_plain_text()
}

/// Indexing `ThemeSet::themes` (a `BTreeMap`) by name: the theme with that
/// name, which panics when there is none.
#[verifier::external_body]
fn theme_named<'a>(set: &'a ThemeSet, name: &str) -> (r: &'a Theme)
    requires
        theme_names(*set).contains(name@),
    ensures
        *r == theme_of(*set, name@),
{
    &set.themes[name]
}

/// A run of text in one foreground color.
#[derive(Debug, Clone)]
pub struct StyledSpan {
    pub r: u8,
    pub g: u8,
    pub b: u8,
    pub a: u8,
    pub text: String,
}

/// The text of `spans`, one after the other.
pub open spec fn spans_text(spans: Seq<StyledSpan>) -> Seq<char>
    decreases spans.len(),
{
    if spans.len() == 0 {
        seq![]
    } else {
        spans_text(spans.drop_last()) + spans.last().text@
    }
}

/// The color and text of a run.
pub open spec fn span_view(span: StyledSpan) -> (u8, u8, u8, u8, Seq<char>) {
    (span.r, span.g, span.b, span.a, span.text@)
}

/// The colors and texts of `spans`.
pub open spec fn span_views(spans: Seq<StyledSpan>) -> Seq<(u8, u8, u8, u8, Seq<char>)> {
    spans.map_values(|x: StyledSpan| span_view(x))
}

/// The colors and texts of each line's runs, where there are any.
pub open spec fn optional_span_views(lines: Seq<Option<Vec<StyledSpan>>>) -> Seq<
    Option<Seq<(u8, u8, u8, u8, Seq<char>)>>,
> {
    lines.map_values(
        |o: Option<Vec<StyledSpan>>|
            match o {
                Some(v) => Some(span_views(v@)),
                None => None,
            },
    )
}

/// What syntect gives when it highlights `lines`, one after the other, with
/// `syntax` in `theme` (`HighlightLines::new`, then `highlight_line` for
/// each line): for each line, the color (RGBA) and text of each run, or
/// `None` where it reports an error.
pub uninterp spec fn syntect_highlighting(
    syntax: SyntaxReference,
    theme: Theme,
    syntaxes: SyntaxSet,
    lines: Seq<Seq<char>>,
) -> Seq<Option<Seq<(u8, u8, u8, u8, Seq<char>)>>>;

/// Highlights a file: a `HighlightLines` for `syntax` in `theme`, fed each
/// of `lines` in turn (`HighlightLines::highlight_line`), each line's runs
/// taken by foreground color and text, `None` where syntect reports an
/// error. The result is `syntect_highlighting` of the arguments; syntect
/// documents that a line's runs, one after the other, make up the line.
#[verifier::external_body]
fn highlight_file(syntax: &SyntaxReference, theme: &Theme, syntaxes: &SyntaxSet, lines: &Vec<String>) -> (r: Vec<
    Option<Vec<StyledSpan>>,
>)
    ensures
        r@.len() == lines@.len(),
        optional_span_views(r@) == syntect_highlighting(*syntax, *theme, *syntaxes, line_views(lines@)),
        forall|i: int|
            0 <= i < r@.len() ==> (#[trigger] r@[i] matches Some(spans) ==> spans_text(spans@)
                == lines@[i]@),
{
    let mut h = HighlightLines::new(syntax, theme);
    lines.iter().map(|line| h.highlight_line(line, syntaxes).ok().map(|v| v.into_iter().map(|(s, t)| StyledSpan {
        r: s.foreground.r,
        g: s.foreground.g,
        b: s.foreground.b,
        a: s.foreground.a,
        text: t.to_string(),
    }).collect())).collect()
}

/// The syntax the panel highlights with: Rust's, or plain text when the
/// set has none for `rs`.
pub open spec fn rust_syntax(syntaxes: SyntaxSet) -> SyntaxReference {
    match syntax_for_extension(syntaxes, "rs"@) {
        Some(s) => s,
        None => plain_text_of(syntaxes),
    }
}

/// Each line's runs, and no runs where there are none.
pub open spec fn filled(h: Seq<Option<Seq<(u8, u8, u8, u8, Seq<char>)>>>) -> Seq<Seq<(u8, u8, u8, u8, Seq<char>)>> {
    h.map_values(
        |o: Option<Seq<(u8, u8, u8, u8, Seq<char>)>>|
            match o {
                Some(s) => s,
                None => seq![],
            },
    )
}

/// The highlighting the panel shows for `lines`: syntect's, as Rust (or
/// plain text), in the `base16-ocean.dark` theme, with no runs on a line
/// where syntect reports an error.
pub open spec fn rust_highlighting(syntaxes: SyntaxSet, themes: ThemeSet, lines: Seq<Seq<char>>) -> Seq<
    Seq<(u8, u8, u8, u8, Seq<char>)>,
> {
    filled(syntect_highlighting(rust_syntax(syntaxes), theme_of(themes, "base16-ocean.dark"@), syntaxes, lines))
}

/// The colors and texts of each line's runs.
pub open spec fn lines_span_views(h: Seq<Vec<StyledSpan>>) -> Seq<Seq<(u8, u8, u8, u8, Seq<char>)>> {
    h.map_values(|v: Vec<StyledSpan>| span_views(v@))
}

/// Whether `spans` show `line`: they make it up, or they are empty (the
/// highlighter failed on it).
pub open spec fn shows_line(spans: Seq<StyledSpan>, line: Seq<char>) -> bool {
    spans.len() == 0 || spans_text(spans) == line
}

/// Whether `highlighted` shows each of `lines`, in order.
pub open spec fn shows_lines(highlighted: Seq<Vec<StyledSpan>>, lines: Seq<String>) -> bool {
    &&& highlighted.len() == lines.len()
    &&& forall|i: int| 0 <= i < lines.len() ==> shows_line(#[trigger] highlighted[i]@, lines[i]@)
}

/// The views of `lines`.
pub open spec fn line_views(lines: Seq<String>) -> Seq<Seq<char>> {
    lines.map_values(|l: String| l@)
}

/// A file as the cache knows it: its path, its lines, and their highlighting.
pub struct CachedHighlight {
    path: SourcePath,
    lines: Vec<String>,
    highlighted: Vec<Vec<StyledSpan>>,
}

impl CachedHighlight {
    /// The key of the entry: the path and the lines' text.
    pub closed spec fn key(self) -> (Seq<char>, Seq<Seq<char>>) {
        (self.path.0@, line_views(self.lines@))
    }

    /// The highlighted lines of the entry.
    pub closed spec fn spec_highlighted(self) -> Seq<Vec<StyledSpan>> {
        self.highlighted@
    }

    /// Whether the entry's highlighting shows its lines.
    pub closed spec fn consistent(self) -> bool {
        shows_lines(self.highlighted@, self.lines@)
    }
}

/// The key under which `file` is cached.
pub open spec fn file_key(file: SourceFile) -> (Seq<char>, Seq<Seq<char>>) {
    (file.path.0@, line_views(file.lines@))
}

/// Whether no key occurs twice in `cache`.
pub open spec fn keys_unique(cache: Seq<CachedHighlight>) -> bool {
    forall|i: int, j: int|
        #![trigger cache[i].key(), cache[j].key()]
        0 <= i < cache.len() && 0 <= j < cache.len() && cache[i].key() == cache[j].key() ==> i == j
}

/// The position of the entry with key `k` in `cache`, if any.
pub open spec fn position_of(cache: Seq<CachedHighlight>, k: (Seq<char>, Seq<Seq<char>>)) -> Option<
    int,
> {
    if exists|i: int| 0 <= i < cache.len() && #[trigger] cache[i].key() == k {
        Some(choose|i: int| 0 <= i < cache.len() && #[trigger] cache[i].key() == k)
    } else {
        None
    }
}

/// The source panel: syntect's syntaxes and themes, the file last shown,
/// and the highlighting of every file shown so far.
pub struct SourcePanel {
    syntax_set: SyntaxSet,
    theme_set: ThemeSet,
    current_file: Option<SourcePath>,
    highlight_cache: Vec<CachedHighlight>,
}

impl SourcePanel {
    /// The panel's invariant: the syntaxes and the theme it uses are there,
    /// each cached file's highlighting shows its lines, and no file is
    /// cached twice.
    pub closed spec fn wf(&self) -> bool {
        &&& syntax_names(self.syntax_set).contains("Plain Text"@)
        &&& theme_names(self.theme_set).contains("base16-ocean.dark"@)
        &&& keys_unique(self.highlight_cache@)
        &&& forall|i: int| 0 <= i < self.highlight_cache@.len() ==> (#[trigger] self.highlight_cache@[i]).consistent()
        &&& forall|i: int|
            0 <= i < self.highlight_cache@.len() ==> lines_span_views(
                (#[trigger] self.highlight_cache@[i]).spec_highlighted(),
            ) == rust_highlighting(self.syntax_set, self.theme_set, self.highlight_cache@[i].key().1)
    }

    /// The syntaxes the panel highlights with.
    pub closed spec fn spec_syntaxes(&self) -> SyntaxSet {
        self.syntax_set
    }

    /// The themes the panel takes its theme from.
    pub closed spec fn spec_themes(&self) -> ThemeSet {
        self.theme_set
    }

    /// The cached files, oldest first.
    pub closed spec fn spec_cache(&self) -> Seq<CachedHighlight> {
        self.highlight_cache@
    }

    /// The path of the file last shown.
    pub closed spec fn spec_current_file(&self) -> Option<Seq<char>> {
        match self.current_file {
            Some(p) => Some(p.0@),
            None => None,
        }
    }

    /// A panel that has shown no file.
    pub fn new() -> (p: Self)
        ensures
            p.wf(),
            p.spec_cache().len() == 0,
            p.spec_current_file() is None,
    {
        SourcePanel {
            syntax_set: load_syntax_set(),
            theme_set: load_theme_set(),
            current_file: None,
            highlight_cache: Vec::new(),
        }
    }

    /// The lines highlighted as Rust (or as plain text when the syntaxes
    /// know no Rust), in the `base16-ocean.dark` theme; a line on which the
    /// highlighter fails gets no runs.
    fn highlight_lines(&self, lines: &Vec<String>) -> (out: Vec<Vec<StyledSpan>>)
        requires
            self.wf(),
        ensures
            shows_lines(out@, lines@),
            lines_span_views(out@) == rust_highlighting(self.syntax_set, self.theme_set, line_views(lines@)),
    {
        let syntax = match syntax_by_extension(&self.syntax_set, "rs") {
            Some(s) => s,
            None => plain_text_syntax(&self.syntax_set),
        };
        assert(*syntax == rust_syntax(self.syntax_set));
        let theme = theme_named(&self.theme_set, "base16-ocean.dark");
        let mut runs = highlight_file(syntax, theme, &self.syntax_set, lines);
        let ghost h = runs@;
        let ghost expected = rust_highlighting(self.syntax_set, self.theme_set, line_views(lines@));
        assert(optional_span_views(h).len() == h.len());
        assert(filled(optional_span_views(h)) == expected);
        let n = runs.len();
        let mut out: Vec<Vec<StyledSpan>> = Vec::new();
        let mut i: usize = 0;
        while i < n
            invariant
                n == h.len(),
                n == lines@.len(),
                i <= n,
                runs@ =~= h.subrange(i as int, n as int),
                out@.len() == i,
                forall|k: int| 0 <= k < n ==> (#[trigger] h[k] matches Some(spans) ==> spans_text(spans@)
                    == lines@[k]@),
                forall|k: int| 0 <= k < i ==> shows_line(#[trigger] out@[k]@, lines@[k]@),
                forall|k: int| 0 <= k < i ==> span_views(#[trigger] out@[k]@) == filled(optional_span_views(h))[k],
            decreases n - i,
        {
            let o = runs.remove(0);
            assert(o == h[i as int]);
            let spans = match o {
                Some(v) => v,
                None => Vec::new(),
            };
            proof {
                assert(filled(optional_span_views(h))[i as int] == match optional_span_views(h)[i as int] {
                    Some(s) => s,
                    None => seq![],
                });
                if spans@.len() == 0 {
                    assert(span_views(spans@) =~= seq![]);
                }
            }
            out.push(spans);
            i = i + 1;
        }
        assert(lines_span_views(out@) =~= expected);
        out
    }
}

/// Whether two lists of lines hold the same text.
fn lines_equal(a: &Vec<String>, b: &Vec<String>) -> (r: bool)
    ensures
        r == (line_views(a@) == line_views(b@)),
{
    if a.len() != b.len() {
        assert(line_views(a@).len() != line_views(b@).len());
        return false;
    }
    let mut i: usize = 0;
    while i < a.len()
        invariant
            a.len() == b.len(),
            i <= a.len(),
            forall|k: int| 0 <= k < i ==> a@[k]@ == b@[k]@,
        decreases a.len() - i,
    {
        if !str_eq(a[i].as_str(), b[i].as_str()) {
            assert(line_views(a@)[i as int] != line_views(b@)[i as int]);
            return false;
        }
        i = i + 1;
    }
    assert(line_views(a@) =~= line_views(b@));
    true
}

/// A copy of `lines`.
fn copy_lines(lines: &Vec<String>) -> (r: Vec<String>)
    ensures
        line_views(r@) == line_views(lines@),
{
    let mut r: Vec<String> = Vec::new();
    let mut i: usize = 0;
    while i < lines.len()
        invariant
            i <= lines.len(),
            r@.len() == i,
            forall|k: int| 0 <= k < i ==> r@[k]@ == lines@[k]@,
        decreases lines.len() - i,
    {
        r.push(string_from(lines[i].as_str()));
        i = i + 1;
    }
    assert(line_views(r@) =~= line_views(lines@));
    r
}

/// A highlighting that shows some lines shows any lines of the same text.
proof fn lemma_shows_same_lines(h: Seq<Vec<StyledSpan>>, a: Seq<String>, b: Seq<String>)
    requires
        shows_lines(h, a),
        line_views(a) == line_views(b),
    ensures
        shows_lines(h, b),
{
    assert(line_views(a).len() == a.len());
    assert(line_views(b).len() == b.len());
    assert forall|k: int| 0 <= k < b.len() implies shows_line(#[trigger] h[k]@, b[k]@) by {
        assert(line_views(a)[k] == line_views(b)[k]);
    }
}

impl SourcePanel {
    /// Where `file` is in the cache, if it is.
    fn find_cached(&self, file: &SourceFile) -> (r: Option<usize>)
        ensures
            match r {
                Some(i) => i < self.spec_cache().len() && self.spec_cache()[i as int].key() == file_key(
                    *file,
                ),
                None => forall|i: int|
                    0 <= i < self.spec_cache().len() ==> #[trigger] self.spec_cache()[i].key() != file_key(
                        *file,
                    ),
            },
    {
        let mut i: usize = 0;
        while i < self.highlight_cache.len()
            invariant
                i <= self.highlight_cache@.len(),
                forall|k: int| 0 <= k < i ==> #[trigger] self.highlight_cache@[k].key() != file_key(*file),
            decreases self.highlight_cache.len() - i,
        {
            let entry = &self.highlight_cache[i];
            if str_eq(entry.path.0.as_str(), file.path.0.as_str()) && lines_equal(&entry.lines, &file.lines) {
                return Some(i);
            }
            i = i + 1;
        }
        None
    }

    /// Shows `file`: it becomes the current file, and its lines are
    /// highlighted unless the cache holds them already (same path, same
    /// text), in which case the cache is left as it was.
    pub fn highlight(&mut self, file: &SourceFile)
        requires
            old(self).wf(),
        ensures
            final(self).wf(),
            final(self).spec_current_file() == Some(file.path.0@),
            position_of(old(self).spec_cache(), file_key(*file)) is Some ==> final(self).spec_cache()
                == old(self).spec_cache(),
            position_of(old(self).spec_cache(), file_key(*file)) is None ==> {
                &&& final(self).spec_cache().len() == old(self).spec_cache().len() + 1
                &&& final(self).spec_cache().subrange(0, old(self).spec_cache().len() as int) == old(
                    self,
                ).spec_cache()
                &&& final(self).spec_cache().last().key() == file_key(*file)
            },
            position_of(final(self).spec_cache(), file_key(*file)) is Some,
            final(self).spec_syntaxes() == old(self).spec_syntaxes(),
            final(self).spec_themes() == old(self).spec_themes(),
            position_of(final(self).spec_cache(), file_key(*file)) matches Some(i) && lines_span_views(
                final(self).spec_cache()[i].spec_highlighted(),
            ) == rust_highlighting(old(self).spec_syntaxes(), old(self).spec_themes(), line_views(file.lines@)),
    {
        self.current_file = Some(SourcePath(string_from(file.path.0.as_str())));
        match self.find_cached(file) {
            Some(i) => {
                assert(self.highlight_cache@[i as int].key() == file_key(*file));
            },
            None => {
                let highlighted = self.highlight_lines(&file.lines);
                let entry = CachedHighlight {
                    path: SourcePath(string_from(file.path.0.as_str())),
                    lines: copy_lines(&file.lines),
                    highlighted,
                };
                assert(entry.key() == file_key(*file));
                proof {
                    lemma_shows_same_lines(entry.highlighted@, file.lines@, entry.lines@);
                }
                let ghost before = self.highlight_cache@;
                assert forall|k: int| 0 <= k < before.len() implies #[trigger] before[k].key() != file_key(
                    *file,
                ) by {
                    assert(self.spec_cache()[k].key() != file_key(*file));
                }
                assert(entry.consistent());
                self.highlight_cache.push(entry);
                let ghost after = self.highlight_cache@;
                assert(after.subrange(0, before.len() as int) =~= before);
                assert(after[before.len() as int].key() == file_key(*file));
                assert(keys_unique(after)) by {
                    assert forall|i: int, j: int|
                        #![trigger after[i].key(), after[j].key()]
                        0 <= i < after.len() && 0 <= j < after.len() && after[i].key() == after[j].key()
                        implies i == j by {
                        if i < before.len() && j < before.len() {
                            assert(before[i].key() == after[i].key());
                            assert(before[j].key() == after[j].key());
                        } else if i < before.len() {
                            assert(before[i].key() == after[i].key());
                        } else if j < before.len() {
                            assert(before[j].key() == after[j].key());
                        }
                    }
                }
                assert forall|i: int| 0 <= i < after.len() implies (#[trigger] after[i]).consistent() by {
                    if i < before.len() {
                        assert(after[i] == before[i]);
                    }
                }
            },
        }
    }

    /// The highlighting of `file` when the cache holds it (same path, same
    /// text). It shows the file's lines.
    pub fn highlighted(&self, file: &SourceFile) -> (r: Option<&Vec<Vec<StyledSpan>>>)
        requires
            self.wf(),
        ensures
            match position_of(self.spec_cache(), file_key(*file)) {
                Some(i) => r matches Some(v) && v@ == self.spec_cache()[i].spec_highlighted(),
                None => r is None,
            },
            r matches Some(v) ==> shows_lines(v@, file.lines@),
            r matches Some(v) ==> lines_span_views(v@) == rust_highlighting(
                self.spec_syntaxes(),
                self.spec_themes(),
                line_views(file.lines@),
            ),
    {
        match self.find_cached(file) {
            Some(i) => {
                let ghost cache = self.highlight_cache@;
                assert(cache[i as int].key() == file_key(*file));
                assert(position_of(cache, file_key(*file)) == Some(i as int));
                let entry = &self.highlight_cache[i];
                assert(entry.consistent());
                proof {
                    lemma_shows_same_lines(entry.highlighted@, entry.lines@, file.lines@);
                }
                Some(&entry.highlighted)
            },
            None => None,
        }
    }
}

impl Default for SourcePanel {
    fn default() -> (p: Self)
        ensures
            p.wf(),
            p.spec_cache().len() == 0,
            p.spec_current_file() is None,
    {
        Self::new()
    }
}
} // verus!
