//! Building display text: characters, decimal and hexadecimal numerals.

use vstd::prelude::*;

verus! {

/// Appends one character to a string (`String::push`).
#[verifier::external_body]
pub(crate) fn push_char(s: &mut String, c: char)
    ensures
        final(s)@ == old(s)@.push(c),
{
    s.push(c);
}

/// The lowercase hexadecimal digit of `d` (`0 <= d < 16`).
pub open spec fn hex_digit(d: int) -> char {
    if d < 10 {
        (('0' as int) + d) as char
    } else {
        (('a' as int) + d - 10) as char
    }
}

/// The decimal digit of `d` (`0 <= d < 10`).
pub open spec fn dec_digit(d: int) -> char {
    (('0' as int) + d) as char
}

/// Decimal numeral of `n`, without leading zeros ("0" for zero).
pub open spec fn decimal(n: nat) -> Seq<char>
    decreases n,
{
    if n < 10 {
        seq![dec_digit(n as int)]
    } else {
        decimal(n / 10).push(dec_digit((n % 10) as int))
    }
}

/// Lowercase hexadecimal numeral of `n`, without leading zeros ("0" for zero).
pub open spec fn hex(n: nat) -> Seq<char>
    decreases n,
{
    if n < 16 {
        seq![hex_digit(n as int)]
    } else {
        hex(n / 16).push(hex_digit((n % 16) as int))
    }
}

/// `s` padded on the left with `'0'` up to `width` characters.
pub open spec fn zero_padded(s: Seq<char>, width: nat) -> Seq<char> {
    if s.len() >= width {
        s
    } else {
        Seq::new((width - s.len()) as nat, |i: int| '0') + s
    }
}

fn dec_char(d: u64) -> (c: char)
    requires
        d < 10,
    ensures
        c == dec_digit(d as int),
{
    match d {
        0 => '0',
        1 => '1',
        2 => '2',
        3 => '3',
        4 => '4',
        5 => '5',
        6 => '6',
        7 => '7',
        8 => '8',
        _ => '9',
    }
}

fn hex_char(d: u64) -> (c: char)
    requires
        d < 16,
    ensures
        c == hex_digit(d as int),
{
    match d {
        0 => '0',
        1 => '1',
        2 => '2',
        3 => '3',
        4 => '4',
        5 => '5',
        6 => '6',
        7 => '7',
        8 => '8',
        9 => '9',
        10 => 'a',
        11 => 'b',
        12 => 'c',
        13 => 'd',
        14 => 'e',
        _ => 'f',
    }
}

/// Digits of `n` in base `b`, most significant first.
pub open spec fn numeral(n: nat, b: nat) -> Seq<char>
    recommends
        b == 10 || b == 16,
{
    if b == 10 {
        decimal(n)
    } else {
        hex(n)
    }
}

/// Appends the base-`base` numeral of `n` (10 or 16), left-padded with zeros
/// to `width` characters, to `out`.
pub fn push_numeral(out: &mut String, n: u64, base: u64, width: usize)
    requires
        base == 10 || base == 16,
    ensures
        final(out)@ == old(out)@ + zero_padded(numeral(n as nat, base as nat), width as nat),
{
    // Collect the digits least significant first.
    let mut digits: Vec<char> = Vec::new();
    let mut m: u64 = n;
    let ghost target = numeral(n as nat, base as nat);
    loop
        invariant_except_break
            numeral(m as nat, base as nat) + digits@.reverse() == target,
        invariant
            base == 10 || base == 16,
        ensures
            digits@.reverse() == target,
        decreases m,
    {
        let d = m % base;
        let c = if base == 10 {
            dec_char(d)
        } else {
            hex_char(d)
        };
        let ghost old_digits = digits@;
        digits.push(c);
        if m < base {
            assert(numeral(m as nat, base as nat) == seq![c]);
            assert(digits@.reverse() =~= seq![c] + old_digits.reverse());
            assert(digits@.reverse() =~= target);
            break;
        }
        proof {
            assert(numeral(m as nat, base as nat) == numeral((m / base) as nat, base as nat).push(c));
            assert(digits@.reverse() =~= seq![c] + old_digits.reverse());
            assert(numeral((m / base) as nat, base as nat) + digits@.reverse() =~= numeral(
                (m / base) as nat,
                base as nat,
            ).push(c) + old_digits.reverse());
        }
        m = m / base;
    }
    assert(digits@.reverse() == target);
    // Leading zeros.
    let len = digits.len();
    let mut pad: usize = 0;
    let ghost start = out@;
    if len < width {
        while pad < width - len
            invariant
                len < width,
                pad <= width - len,
                out@ == start + Seq::new(pad as nat, |i: int| '0'),
            decreases width - len - pad,
        {
            push_char(out, '0');
            pad = pad + 1;
            assert(out@ =~= start + Seq::new(pad as nat, |i: int| '0'));
        }
    }
    let ghost padded = out@;
    assert(padded == start + Seq::new((zero_padded(target, width as nat).len() - target.len()) as nat, |i: int| '0')) by {
        if len < width {
            assert(padded =~= start + Seq::new((width - len) as nat, |i: int| '0'));
        } else {
            assert(padded =~= start + Seq::new(0, |i: int| '0'));
        }
    }
    // Most significant digit first.
    let mut k = len;
    while k > 0
        invariant
            k <= len,
            len == digits.len(),
            digits@.reverse() == target,
            out@ == padded + target.subrange(0, (len - k) as int),
        decreases k,
    {
        k = k - 1;
        push_char(out, digits[k]);
        assert(target[(len - k - 1) as int] == digits@[k as int]);
        assert(out@ =~= padded + target.subrange(0, (len - k) as int));
    }
    assert(target.subrange(0, len as int) =~= target);
    assert(out@ =~= start + zero_padded(target, width as nat));
}

/// The base-`base` numeral of `n`, left-padded with zeros to `width`.
pub fn numeral_string(n: u64, base: u64, width: usize) -> (s: String)
    requires
        base == 10 || base == 16,
    ensures
        s@ == zero_padded(numeral(n as nat, base as nat), width as nat),
{
    let mut s = String::new();
    push_numeral(&mut s, n, base, width);
    assert(s@ =~= zero_padded(numeral(n as nat, base as nat), width as nat));
    s
}

/// Whether two strings hold the same characters.
pub fn str_eq(a: &str, b: &str) -> (r: bool)
    ensures
        r == (a@ == b@),
{
    let la = a.unicode_len();
    let lb = b.unicode_len();
    if la != lb {
        return false;
    }
    let mut i: usize = 0;
    while i < la
        invariant
            la == a@.len(),
            lb == b@.len(),
            la == lb,
            i <= la,
            forall|j: int| 0 <= j < i ==> a@[j] == b@[j],
        decreases la - i,
    {
        if a.get_char(i) != b.get_char(i) {
            return false;
        }
        i = i + 1;
    }
    assert(a@ =~= b@);
    true
}

/// Whether `s` begins with `prefix`.
pub fn str_starts_with(s: &str, prefix: &str) -> (r: bool)
    ensures
        r == (prefix@.len() <= s@.len() && s@.subrange(0, prefix@.len() as int) == prefix@),
{
    let ls = s.unicode_len();
    let lp = prefix.unicode_len();
    if lp > ls {
        return false;
    }
    let mut i: usize = 0;
    while i < lp
        invariant
            ls == s@.len(),
            lp == prefix@.len(),
            lp <= ls,
            i <= lp,
            forall|j: int| 0 <= j < i ==> s@[j] == prefix@[j],
        decreases lp - i,
    {
        if s.get_char(i) != prefix.get_char(i) {
            assert(s@.subrange(0, lp as int)[i as int] != prefix@[i as int]);
            return false;
        }
        i = i + 1;
    }
    assert(s@.subrange(0, lp as int) =~= prefix@);
    true
}

} // verus!

verus! {

/// `line` without one trailing carriage return.
pub open spec fn strip_cr(line: Seq<char>) -> Seq<char> {
    if line.len() > 0 && line.last() == '\r' {
        line.drop_last()
    } else {
        line
    }
}

/// Scanning `s` from the left: the lines completed so far, and the
/// characters of the line still open.
pub open spec fn line_scan(s: Seq<char>) -> (Seq<Seq<char>>, Seq<char>)
    decreases s.len(),
{
    if s.len() == 0 {
        (seq![], seq![])
    } else {
        let (done, open) = line_scan(s.drop_last());
        if s.last() == '\n' {
            (done.push(strip_cr(open)), seq![])
        } else {
            (done, open.push(s.last()))
        }
    }
}

/// The lines of `s`, as `str::lines` yields them: split at `\n`, a `\r`
/// before it dropped, and no empty last line after a final line ending.
pub open spec fn lines_of(s: Seq<char>) -> Seq<Seq<char>> {
    let (done, open) = line_scan(s);
    if open.len() == 0 {
        done
    } else {
        done.push(open)
    }
}

/// The string of the first `n` characters of `chars`, without a trailing
/// carriage return when `strip` is set.
fn string_of(chars: &Vec<char>, strip: bool) -> (s: String)
    ensures
        s@ == (if strip {
            strip_cr(chars@)
        } else {
            chars@
        }),
{
    let mut n = chars.len();
    if strip && n > 0 && chars[n - 1] == '\r' {
        n = n - 1;
    }
    let mut s = String::new();
    let mut k: usize = 0;
    while k < n
        invariant
            n <= chars.len(),
            k <= n,
            s@ == chars@.subrange(0, k as int),
        decreases n - k,
    {
        push_char(&mut s, chars[k]);
        k = k + 1;
        assert(s@ =~= chars@.subrange(0, k as int));
    }
    assert(chars@.subrange(0, n as int) =~= (if strip {
        strip_cr(chars@)
    } else {
        chars@
    }));
    s
}

/// The views of a sequence of strings.
pub open spec fn views(v: Seq<String>) -> Seq<Seq<char>> {
    v.map_values(|s: String| s@)
}

/// The lines of `text` (`str::lines`).
pub fn split_lines(text: &str) -> (lines: Vec<String>)
    ensures
        views(lines@) == lines_of(text@),
{
    let len = text.unicode_len();
    let mut done: Vec<String> = Vec::new();
    let mut open: Vec<char> = Vec::new();
    let mut i: usize = 0;
    while i < len
        invariant
            len == text@.len(),
            i <= len,
            (views(done@), open@) == line_scan(text@.subrange(0, i as int)),
        decreases len - i,
    {
        let c = text.get_char(i);
        let ghost prefix = text@.subrange(0, i as int);
        assert(text@.subrange(0, i + 1).drop_last() =~= prefix);
        if c == '\n' {
            let line = string_of(&open, true);
            done.push(line);
            open = Vec::new();
            assert(views(done@) =~= line_scan(prefix).0.push(strip_cr(line_scan(prefix).1)));
        } else {
            open.push(c);
        }
        i = i + 1;
        assert(open@ =~= line_scan(text@.subrange(0, i as int)).1);
    }
    assert(text@.subrange(0, len as int) =~= text@);
    if open.len() > 0 {
        let last = string_of(&open, false);
        done.push(last);
        assert(views(done@) =~= line_scan(text@).0.push(line_scan(text@).1));
    }
    done
}

} // verus!

verus! {

/// `"0x"` followed by the lowercase hex numeral of `n`, zero-padded to
/// `width` digits.
pub fn prefixed_hex(n: u64, width: usize) -> (s: String)
    ensures
        s@ == "0x"@ + zero_padded(hex(n as nat), width as nat),
{
    let mut s = String::from_str("0x");
    push_numeral(&mut s, n, 16, width);
    s
}

/// The lowercase hex numeral of `n`, zero-padded to `width` digits.
pub fn hex_string(n: u64, width: usize) -> (s: String)
    ensures
        s@ == zero_padded(hex(n as nat), width as nat),
{
    numeral_string(n, 16, width)
}

/// The decimal numeral of `n`.
pub fn decimal_string(n: u64) -> (s: String)
    ensures
        s@ == decimal(n as nat),
{
    let s = numeral_string(n, 10, 0);
    assert(zero_padded(decimal(n as nat), 0) == decimal(n as nat));
    s
}

/// A string holding the characters of `s`.
pub fn string_from(s: &str) -> (r: String)
    ensures
        r@ == s@,
{
    String::from_str(s)
}

/// `a` followed by `b`.
pub fn joined(a: &str, b: &str) -> (r: String)
    ensures
        r@ == a@ + b@,
{
    let mut r = String::from_str(a);
    r.append(b);
    r
}

} // verus!

verus! {

/// `s` padded on the left with spaces up to `width` characters.
pub open spec fn space_padded(s: Seq<char>, width: nat) -> Seq<char> {
    if s.len() >= width {
        s
    } else {
        Seq::new((width - s.len()) as nat, |i: int| ' ') + s
    }
}

/// The decimal numeral of `n`, right-aligned in `width` characters.
pub fn right_aligned_decimal(n: u64, width: usize) -> (s: String)
    ensures
        s@ == space_padded(decimal(n as nat), width as nat),
{
    let digits = decimal_string(n);
    let len = digits.unicode_len();
    let mut s = String::new();
    if len < width {
        let mut k: usize = 0;
        while k < width - len
            invariant
                len < width,
                k <= width - len,
                s@ == Seq::new(k as nat, |i: int| ' '),
            decreases width - len - k,
        {
            push_char(&mut s, ' ');
            k = k + 1;
            assert(s@ =~= Seq::new(k as nat, |i: int| ' '));
        }
    }
    let ghost pad = s@;
    s.append(digits.as_str());
    assert(s@ =~= space_padded(decimal(n as nat), width as nat));
    s
}

} // verus!

verus! {

/// Decimal numeral of the integer `i`, with a leading `'-'` when negative.
pub open spec fn signed_decimal(i: int) -> Seq<char> {
    if i < 0 {
        seq!['-'] + decimal((-i) as nat)
    } else {
        decimal(i as nat)
    }
}

/// The decimal numeral of `i`, with a leading `'-'` when negative.
pub fn signed_decimal_string(i: i64) -> (s: String)
    ensures
        s@ == signed_decimal(i as int),
{
    if i < 0 {
        let magnitude: u64 = if i == i64::MIN {
            9_223_372_036_854_775_808u64
        } else {
            (-i) as u64
        };
        let digits = decimal_string(magnitude);
        let s = joined("-", digits.as_str());
        proof {
            reveal_strlit("-");
        }
        s
    } else {
        decimal_string(i as u64)
    }
}

} // verus!
