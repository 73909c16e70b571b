//! The decisions of the `sdb` command loop: which line to run, what a
//! command line asks for, and how a stop is reported. Reading lines,
//! keeping history and driving the process happen outside the library.

use vstd::prelude::*;
use crate::error::Error;
use crate::process::{ProcessState, StopReason};
use crate::text::{dec_digit, decimal, decimal_string, push_char, signed_decimal, signed_decimal_string, str_starts_with};

verus! {

/// Whether `c` has the Unicode `White_Space` property (`char::is_whitespace`).
pub open spec fn is_space(c: char) -> bool {
    ||| '\u{9}' <= c <= '\u{d}'
    ||| c == ' '
    ||| c == '\u{85}'
    ||| c == '\u{a0}'
    ||| c == '\u{1680}'
    ||| '\u{2000}' <= c <= '\u{200a}'
    ||| c == '\u{2028}'
    ||| c == '\u{2029}'
    ||| c == '\u{202f}'
    ||| c == '\u{205f}'
    ||| c == '\u{3000}'
}

/// `s` without its leading white space.
pub open spec fn skip_spaces(s: Seq<char>) -> Seq<char>
    decreases s.len(),
{
    if s.len() > 0 && is_space(s[0]) {
        skip_spaces(s.drop_first())
    } else {
        s
    }
}

/// The longest prefix of `s` that holds no white space.
pub open spec fn word_prefix(s: Seq<char>) -> Seq<char>
    decreases s.len(),
{
    if s.len() > 0 && !is_space(s[0]) {
        seq![s[0]] + word_prefix(s.drop_first())
    } else {
        seq![]
    }
}

/// The first whitespace-separated word of `s`.
pub open spec fn first_word(s: Seq<char>) -> Seq<char> {
    word_prefix(skip_spaces(s))
}

/// Whether `s` holds a character that is not white space.
pub open spec fn has_word(s: Seq<char>) -> bool {
    exists|i: int| 0 <= i < s.len() && !is_space(#[trigger] s[i])
}

/// A command of the debugger's prompt.
#[derive(Debug, Clone, Copy, PartialEq, Eq, Structural)]
pub enum SdbCommand {
    /// Resume the process and wait for it to stop.
    Continue,
}

/// The word `continue`.
pub open spec fn continue_word() -> Seq<char> {
    seq!['c', 'o', 'n', 't', 'i', 'n', 'u', 'e']
}

/// The command that a line names: any prefix of `continue` names
/// `Continue`; other words name none.
pub open spec fn named_command(line: Seq<char>) -> Option<SdbCommand> {
    let w = first_word(line);
    if w.len() <= continue_word().len() && continue_word().subrange(0, w.len() as int) == w {
        Some(SdbCommand::Continue)
    } else {
        None
    }
}

/// The message of the error for a word that names no command.
pub open spec fn unknown_command_message() -> Seq<char> {
    seq!['U', 'n', 'k', 'n', 'o', 'w', 'n', ' ', 'c', 'o', 'm', 'm', 'a', 'n', 'd']
}

/// Whether `c` is white space (`char::is_whitespace`).
fn char_is_space(c: char) -> (r: bool)
    ensures
        r == is_space(c),
{
    ('\u{9}' <= c && c <= '\u{d}') || c == ' ' || c == '\u{85}' || c == '\u{a0}' || c == '\u{1680}'
        || ('\u{2000}' <= c && c <= '\u{200a}') || c == '\u{2028}' || c == '\u{2029}' || c
        == '\u{202f}' || c == '\u{205f}' || c == '\u{3000}'
}

/// The first whitespace-separated word of `line`.
pub fn first_word_of(line: &str) -> (w: String)
    ensures
        w@ == first_word(line@),
{
    let ghost s = line@;
    let n = line.unicode_len();
    let mut i: usize = 0;
    assert(s.subrange(0, n as int) =~= s);
    while i < n && char_is_space(line.get_char(i))
        invariant
            n == s.len(),
            s == line@,
            i <= n,
            skip_spaces(s) == skip_spaces(s.subrange(i as int, n as int)),
        decreases n - i,
    {
        assert(s.subrange(i as int, n as int).drop_first() =~= s.subrange(i + 1, n as int));
        i = i + 1;
    }
    assert(skip_spaces(s.subrange(i as int, n as int)) == s.subrange(i as int, n as int));
    let mut w = String::new();
    let mut j: usize = i;
    while j < n && !char_is_space(line.get_char(j))
        invariant
            n == s.len(),
            s == line@,
            i <= j <= n,
            word_prefix(s.subrange(i as int, n as int)) == w@ + word_prefix(
                s.subrange(j as int, n as int),
            ),
        decreases n - j,
    {
        let c = line.get_char(j);
        assert(s.subrange(j as int, n as int).drop_first() =~= s.subrange(j + 1, n as int));
        assert(w@ + (seq![c] + word_prefix(s.subrange(j + 1, n as int))) =~= w@.push(c)
            + word_prefix(s.subrange(j + 1, n as int)));
        push_char(&mut w, c);
        j = j + 1;
    }
    assert(word_prefix(s.subrange(j as int, n as int)) =~= Seq::<char>::empty());
    assert(w@ + Seq::<char>::empty() =~= w@);
    w
}

/// The command that `line` names, or `InvalidArg("Unknown command")`.
pub fn parse_command(line: &str) -> (r: Result<SdbCommand, Error>)
    requires
        has_word(line@),
    ensures
        match named_command(line@) {
            Some(c) => r == Ok::<SdbCommand, Error>(c),
            None => r matches Err(Error::InvalidArg(m)) && m@ == unknown_command_message(),
        },
{
    let w = first_word_of(line);
    let known = "continue";
    proof {
        reveal_strlit("continue");
        assert(known@ =~= continue_word());
    }
    if str_starts_with(known, w.as_str()) {
        Ok(SdbCommand::Continue)
    } else {
        let m = String::from_str("Unknown command");
        proof {
            reveal_strlit("Unknown command");
            assert(m@ =~= unknown_command_message());
        }
        Err(Error::InvalidArg(m))
    }
}

/// The line to run for an input line: an empty input repeats `last`; any
/// other input is run and becomes the new last command (the `bool`).
pub fn next_command(last: &str, line: &str) -> (r: (String, bool))
    ensures
        line@.len() == 0 ==> r.0@ == last@ && !r.1,
        line@.len() > 0 ==> r.0@ == line@ && r.1,
{
    if line.unicode_len() == 0 {
        (String::from_str(last), false)
    } else {
        (String::from_str(line), true)
    }
}

/// The text after `"Process <pid> "` that reports `reason`.
pub open spec fn stop_text(reason: StopReason) -> Seq<char> {
    match reason.state {
        ProcessState::Exited => "exited with status "@ + decimal(reason.info as nat),
        ProcessState::Terminated => "terminated with signal "@ + decimal(reason.info as nat),
        ProcessState::Stopped => "stopped with signal "@ + decimal(reason.info as nat),
        ProcessState::Running => "Unknown stop reason"@,
    }
}

/// The line that reports how process `pid` stopped.
pub fn stop_message(pid: i32, reason: StopReason) -> (s: String)
    ensures
        s@ == "Process "@ + signed_decimal(pid as int) + " "@ + stop_text(reason),
{
    let mut s = String::from_str("Process ");
    let p = signed_decimal_string(pid as i64);
    s.append(p.as_str());
    s.append(" ");
    let info = decimal_string(reason.info as u64);
    match reason.state {
        ProcessState::Exited => {
            s.append("exited with status ");
            s.append(info.as_str());
        },
        ProcessState::Terminated => {
            s.append("terminated with signal ");
            s.append(info.as_str());
        },
        ProcessState::Stopped => {
            s.append("stopped with signal ");
            s.append(info.as_str());
        },
        ProcessState::Running => {
            s.append("Unknown stop reason");
        },
    }
    s
}


/// Whether every character of `s` is a decimal digit.
pub open spec fn all_digits(s: Seq<char>) -> bool {
    forall|i: int| 0 <= i < s.len() ==> '0' <= #[trigger] s[i] <= '9'
}

/// The number that the decimal digits `s` write.
pub open spec fn decimal_value(s: Seq<char>) -> nat
    decreases s.len(),
{
    if s.len() == 0 {
        0
    } else {
        decimal_value(s.drop_last()) * 10 + ((s.last() as int) - ('0' as int)) as nat
    }
}

/// A decimal digit character stands for its value.
proof fn lemma_digit_value(d: int)
    requires
        0 <= d < 10,
    ensures
        (dec_digit(d) as int) - ('0' as int) == d,
        '0' <= dec_digit(d) <= '9',
{
    if d == 0 { assert(dec_digit(0) == '0'); }
    else if d == 1 { assert(dec_digit(1) == '1'); }
    else if d == 2 { assert(dec_digit(2) == '2'); }
    else if d == 3 { assert(dec_digit(3) == '3'); }
    else if d == 4 { assert(dec_digit(4) == '4'); }
    else if d == 5 { assert(dec_digit(5) == '5'); }
    else if d == 6 { assert(dec_digit(6) == '6'); }
    else if d == 7 { assert(dec_digit(7) == '7'); }
    else if d == 8 { assert(dec_digit(8) == '8'); }
    else { assert(dec_digit(9) == '9'); }
}

/// A decimal numeral is a non-empty run of digits that reads back as its
/// number.
proof fn lemma_decimal_reads_back(n: nat)
    ensures
        decimal(n).len() > 0,
        all_digits(decimal(n)),
        decimal_value(decimal(n)) == n,
    decreases n,
{
    if n < 10 {
        lemma_digit_value(n as int);
        let d = decimal(n);
        assert(d == seq![dec_digit(n as int)]);
        assert(d.drop_last() =~= Seq::<char>::empty());
        assert(decimal_value(d.drop_last()) == 0);
        assert(d.last() == dec_digit(n as int));
        assert(decimal_value(d) == n);
    } else {
        lemma_digit_value((n % 10) as int);
        lemma_decimal_reads_back(n / 10);
        let d = decimal(n);
        assert(d.drop_last() =~= decimal(n / 10));
        assert(d.last() == dec_digit((n % 10) as int));
        assert(decimal_value(d) == (n / 10) * 10 + n % 10);
    }
}

/// The first character of each stop report's text.
proof fn lemma_stop_text_initial(reason: StopReason)
    ensures
        stop_text(reason).len() > 0,
        stop_text(reason)[0] == match reason.state {
            ProcessState::Exited => 'e',
            ProcessState::Terminated => 't',
            ProcessState::Stopped => 's',
            ProcessState::Running => 'U',
        },
{
    reveal_strlit("exited with status ");
    reveal_strlit("terminated with signal ");
    reveal_strlit("stopped with signal ");
    reveal_strlit("Unknown stop reason");
}

/// Law: the report of a stop ends with the exit status or the signal number
/// in decimal: after its last space come only decimal digits, and they read
/// as `reason.info`. Reports of stops of different kinds differ, whatever
/// their numbers.
pub proof fn lemma_stop_text_reads_back(reason: StopReason, other: StopReason)
    ensures
        reason.state != ProcessState::Running ==> exists|k: int|
            0 < k < stop_text(reason).len() && stop_text(reason)[k - 1] == ' ' && all_digits(
                #[trigger] stop_text(reason).subrange(k, stop_text(reason).len() as int),
            ) && decimal_value(stop_text(reason).subrange(k, stop_text(reason).len() as int))
                == reason.info,
        reason.state != other.state ==> stop_text(reason) != stop_text(other),
{
    lemma_stop_text_initial(reason);
    lemma_stop_text_initial(other);
    if reason.state != ProcessState::Running {
        let d = decimal(reason.info as nat);
        lemma_decimal_reads_back(reason.info as nat);
        let phrase = match reason.state {
            ProcessState::Exited => "exited with status "@,
            ProcessState::Terminated => "terminated with signal "@,
            _ => "stopped with signal "@,
        };
        reveal_strlit("exited with status ");
        reveal_strlit("terminated with signal ");
        reveal_strlit("stopped with signal ");
        let t = stop_text(reason);
        assert(t == phrase + d);
        let k = phrase.len() as int;
        assert(phrase[k - 1] == ' ');
        assert(t[k - 1] == ' ');
        assert(t.subrange(k, t.len() as int) =~= d);
    }
}
} // verus!
