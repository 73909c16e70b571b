//! Memory view panel: a hex dump with an ASCII column.

use vstd::prelude::*;
use core::ops::Range;
use crate::text::{hex, hex_string, prefixed_hex, push_char, zero_padded};

verus! {

// ---------------------------------------------------------------------------
// Parsing an address typed in hexadecimal.
// ---------------------------------------------------------------------------

/// `s` with every leading `"0x"` removed (`trim_start_matches("0x")`).
pub open spec fn strip_0x(s: Seq<char>) -> Seq<char>
    decreases s.len(),
{
    if s.len() >= 2 && s[0] == '0' && s[1] == 'x' {
        strip_0x(s.subrange(2, s.len() as int))
    } else {
        s
    }
}

/// Whether `c` is a hexadecimal digit (either case).
pub open spec fn is_hex_digit(c: char) -> bool {
    ('0' <= c <= '9') || ('a' <= c <= 'f') || ('A' <= c <= 'F')
}

/// The value of the hexadecimal digit `c`.
pub open spec fn hex_digit_value(c: char) -> nat {
    if '0' <= c <= '9' {
        (c as int - '0' as int) as nat
    } else if 'a' <= c <= 'f' {
        (c as int - 'a' as int + 10) as nat
    } else {
        (c as int - 'A' as int + 10) as nat
    }
}

/// Whether every character of `s` is a hexadecimal digit.
pub open spec fn all_hex_digits(s: Seq<char>) -> bool {
    forall|i: int| 0 <= i < s.len() ==> is_hex_digit(#[trigger] s[i])
}

/// The number written by the hexadecimal digits `s`.
pub open spec fn hex_value(s: Seq<char>) -> nat
    decreases s.len(),
{
    if s.len() == 0 {
        0
    } else {
        hex_value(s.drop_last()) * 16 + hex_digit_value(s.last())
    }
}

/// What `u64::from_str_radix(s, 16)` gives: an optional `+`, then at least
/// one hex digit, for a value that fits in 64 bits.
pub open spec fn parse_hex_u64(s: Seq<char>) -> Option<u64> {
    let digits = if s.len() > 0 && s[0] == '+' {
        s.drop_first()
    } else {
        s
    };
    if digits.len() == 0 || !all_hex_digits(digits) || hex_value(digits) > u64::MAX {
        None
    } else {
        Some(hex_value(digits) as u64)
    }
}

/// The address that the text of the address field names, if any.
pub open spec fn parse_address(s: Seq<char>) -> Option<u64> {
    parse_hex_u64(strip_0x(s))
}

proof fn lemma_hex_value_prefix(s: Seq<char>, k: int)
    requires
        0 <= k <= s.len(),
        all_hex_digits(s),
    ensures
        hex_value(s.subrange(0, k)) <= hex_value(s),
    decreases s.len(),
{
    if k < s.len() {
        assert(s.drop_last() =~= s.subrange(0, s.len() - 1));
        assert(s.drop_last().subrange(0, k) =~= s.subrange(0, k));
        lemma_hex_value_prefix(s.drop_last(), k);
    } else {
        assert(s.subrange(0, k) =~= s);
    }
}

fn digit_value(c: char) -> (r: Option<u64>)
    ensures
        r is Some <==> is_hex_digit(c),
        r matches Some(d) ==> d == hex_digit_value(c) && d < 16,
{
    if '0' <= c && c <= '9' {
        Some((c as u32 - '0' as u32) as u64)
    } else if 'a' <= c && c <= 'f' {
        Some((c as u32 - 'a' as u32 + 10) as u64)
    } else if 'A' <= c && c <= 'F' {
        Some((c as u32 - 'A' as u32 + 10) as u64)
    } else {
        None
    }
}

/// Parses an address typed as hex, with any number of leading `0x`.
pub fn parse_address_text(text: &str) -> (r: Option<u64>)
    ensures
        r == parse_address(text@),
{
    let len = text.unicode_len();
    // Skip every leading "0x".
    let mut i: usize = 0;
    assert(text@.subrange(0, len as int) =~= text@);
    while len - i >= 2 && text.get_char(i) == '0' && text.get_char(i + 1) == 'x'
        invariant
            len == text@.len(),
            i <= len,
            strip_0x(text@.subrange(i as int, len as int)) == strip_0x(text@),
        decreases len - i,
    {
        let ghost rest = text@.subrange(i as int, len as int);
        assert(rest[0] == '0' && rest[1] == 'x');
        assert(rest.subrange(2, rest.len() as int) =~= text@.subrange(i + 2, len as int));
        i = i + 2;
    }
    let ghost rest = text@.subrange(i as int, len as int);
    assert(!(rest.len() >= 2 && rest[0] == '0' && rest[1] == 'x'));
    assert(strip_0x(rest) == rest);
    let ghost sdigits = if rest.len() > 0 && rest[0] == '+' {
        rest.drop_first()
    } else {
        rest
    };
    if i < len && text.get_char(i) == '+' {
        i = i + 1;
    }
    let ghost digits = text@.subrange(i as int, len as int);
    assert(sdigits =~= digits);
    if i == len {
        return None;
    }
    assert(parse_address(text@) == if !all_hex_digits(digits) || hex_value(digits) > u64::MAX {
        None
    } else {
        Some(hex_value(digits) as u64)
    });
    let start = i;
    let mut value: u64 = 0;
    while i < len
        invariant
            len == text@.len(),
            start <= i <= len,
            digits == text@.subrange(start as int, len as int),
            parse_address(text@) == if !all_hex_digits(digits) || hex_value(digits) > u64::MAX {
                None
            } else {
                Some(hex_value(digits) as u64)
            },
            all_hex_digits(text@.subrange(start as int, i as int)),
            value == hex_value(text@.subrange(start as int, i as int)),
        decreases len - i,
    {
        let c = text.get_char(i);
        let ghost prefix = text@.subrange(start as int, i as int);
        let ghost next = text@.subrange(start as int, i + 1);
        assert(next.drop_last() =~= prefix);
        match digit_value(c) {
            None => {
                assert(digits[i - start] == c);
                assert(!all_hex_digits(digits));
                return None;
            },
            Some(d) => {
                if value > (u64::MAX - d) / 16 {
                    assert(hex_value(next) > u64::MAX) by (nonlinear_arith)
                        requires
                            hex_value(next) == value * 16 + d,
                            value > (u64::MAX - d) / 16,
                            d < 16,
                    ;
                    proof {
                        if all_hex_digits(digits) {
                            assert(digits.subrange(0, i + 1 - start) =~= next);
                            lemma_hex_value_prefix(digits, i + 1 - start);
                        }
                    }
                    return None;
                }
                assert(value * 16 + d <= u64::MAX) by (nonlinear_arith)
                    requires
                        value <= (u64::MAX - d) / 16,
                        d < 16,
                ;
                value = value * 16 + d;
                i = i + 1;
                assert(all_hex_digits(next));
            },
        }
    }
    assert(text@.subrange(start as int, len as int) =~= digits);
    Some(value)
}

// ---------------------------------------------------------------------------
// The hex dump.
// ---------------------------------------------------------------------------

/// How a byte shows in the ASCII column: printable ASCII and space as
/// themselves, anything else as `.`.
pub open spec fn ascii_char(b: u8) -> char {
    if 0x20 <= b <= 0x7e {
        b as char
    } else {
        '.'
    }
}

/// One row of the hex dump.
#[derive(Debug)]
pub struct HexRow {
    /// Address of the row's first byte.
    pub address: u64,
    /// The address as shown: `0x` and at least eight hex digits.
    pub address_text: String,
    /// Each byte as two hex digits.
    pub cells: Vec<String>,
    /// The bytes as ASCII.
    pub ascii: String,
}

/// The bytes of row `r` when `data` is cut into rows of `per_row` bytes.
pub open spec fn row_bytes(data: Seq<u8>, per_row: nat, r: int) -> Seq<u8> {
    let start = r * per_row;
    let end = if start + per_row < data.len() {
        start + per_row
    } else {
        data.len() as int
    };
    data.subrange(start, end)
}

/// The number of rows of `per_row` bytes that `len` bytes fill.
pub open spec fn row_count(len: nat, per_row: nat) -> nat {
    len / per_row + if len % per_row == 0 {
        0nat
    } else {
        1nat
    }
}

proof fn lemma_row_start(len: nat, per_row: nat, r: nat)
    requires
        per_row > 0,
        r < row_count(len, per_row),
    ensures
        r * per_row < len,
        (r + 1) * per_row == r * per_row + per_row,
{
    vstd::arithmetic::div_mod::lemma_fundamental_div_mod(len as int, per_row as int);
    assert(r * per_row < len) by (nonlinear_arith)
        requires
            per_row > 0,
            r < len / per_row + if len % per_row == 0 {
                0nat
            } else {
                1nat
            },
            len == (len / per_row) * per_row + len % per_row,
            0 <= len % per_row < per_row,
    {
        if r < len / per_row {
            assert(r * per_row + per_row <= (len / per_row) * per_row);
        }
    }
    assert((r + 1) * per_row == r * per_row + per_row) by (nonlinear_arith);
}

/// Whether `row` is row `r` of the dump of `data` starting at `address`.
pub open spec fn is_hex_row(row: HexRow, address: u64, data: Seq<u8>, per_row: nat, r: int) -> bool {
    let bytes = row_bytes(data, per_row, r);
    &&& row.address == address + r * per_row
    &&& row.address_text@ == "0x"@ + zero_padded(hex(row.address as nat), 8)
    &&& row.cells@.len() == bytes.len()
    &&& forall|k: int| 0 <= k < bytes.len() ==> (#[trigger] row.cells@[k])@ == zero_padded(
        hex(bytes[k] as nat),
        2,
    )
    &&& row.ascii@ == bytes.map_values(|b: u8| ascii_char(b))
}

fn ascii_of(b: u8) -> (c: char)
    ensures
        c == ascii_char(b),
{
    if 0x20 <= b && b <= 0x7e {
        b as char
    } else {
        '.'
    }
}

fn hex_row(address: u64, data: &[u8], start: usize, end: usize) -> (row: HexRow)
    requires
        start <= end <= data@.len(),
    ensures
        row.address == address,
        row.address_text@ == "0x"@ + zero_padded(hex(address as nat), 8),
        row.cells@.len() == end - start,
        forall|k: int| 0 <= k < end - start ==> (#[trigger] row.cells@[k])@ == zero_padded(
            hex(data@[start + k] as nat),
            2,
        ),
        row.ascii@ == data@.subrange(start as int, end as int).map_values(|b: u8| ascii_char(b)),
{
    let mut cells: Vec<String> = Vec::new();
    let mut ascii = String::new();
    let mut k = start;
    while k < end
        invariant
            start <= k <= end,
            end <= data@.len(),
            cells@.len() == k - start,
            forall|j: int| 0 <= j < k - start ==> (#[trigger] cells@[j])@ == zero_padded(
                hex(data@[start + j] as nat),
                2,
            ),
            ascii@ == data@.subrange(start as int, k as int).map_values(|b: u8| ascii_char(b)),
        decreases end - k,
    {
        cells.push(hex_string(data[k] as u64, 2));
        push_char(&mut ascii, ascii_of(data[k]));
        k = k + 1;
        assert(ascii@ =~= data@.subrange(start as int, k as int).map_values(|b: u8| ascii_char(b)));
    }
    HexRow { address, address_text: prefixed_hex(address, 8), cells, ascii }
}

/// The rows of the hex dump of `data`, which starts at `address`, with
/// `per_row` bytes to a row (the last row may be shorter).
pub fn hex_dump_rows(address: u64, data: &[u8], per_row: usize) -> (rows: Vec<HexRow>)
    requires
        per_row > 0,
        address + data@.len() <= u64::MAX,
    ensures
        rows@.len() == row_count(data@.len(), per_row as nat),
        forall|r: int| 0 <= r < rows@.len() ==> is_hex_row(#[trigger] rows@[r], address, data@, per_row as nat, r),
{
    let len = data.len();
    assert(len % per_row != 0 ==> len / per_row < usize::MAX) by (nonlinear_arith)
        requires
            per_row > 0,
    {
        if len % per_row != 0 {
            assert(per_row >= 2);
        }
    }
    let n_rows = len / per_row + if len % per_row == 0 {
        0
    } else {
        1
    };
    let mut rows: Vec<HexRow> = Vec::new();
    let mut r: usize = 0;
    while r < n_rows
        invariant
            per_row > 0,
            len == data@.len(),
            address + len <= u64::MAX,
            n_rows == row_count(len as nat, per_row as nat),
            r <= n_rows,
            rows@.len() == r,
            forall|q: int| 0 <= q < r ==> is_hex_row(#[trigger] rows@[q], address, data@, per_row as nat, q),
        decreases n_rows - r,
    {
        proof {
            lemma_row_start(len as nat, per_row as nat, r as nat);
        }
        let start = r * per_row;
        let end = if len - start > per_row {
            start + per_row
        } else {
            len
        };
        let row = hex_row(address + start as u64, data, start, end);
        let ghost bytes = row_bytes(data@, per_row as nat, r as int);
        assert(bytes =~= data@.subrange(start as int, end as int));
        rows.push(row);
        proof {
            assert forall|q: int| 0 <= q < r + 1 implies is_hex_row(#[trigger] rows@[q], address, data@, per_row as nat, q) by {
                if q == r {
                    assert forall|k: int| 0 <= k < bytes.len() implies (#[trigger] rows@[q].cells@[k])@ == zero_padded(
                        hex(bytes[k] as nat),
                        2,
                    ) by {
                        assert(bytes[k] == data@[start + k]);
                    }
                }
            }
        }
        r = r + 1;
    }
    rows
}

// ---------------------------------------------------------------------------
// The panel.
// ---------------------------------------------------------------------------

/// State of the memory panel: where the view starts and its shape.
pub struct MemoryPanel {
    address: u64,
    bytes_per_row: usize,
    visible_rows: usize,
}

impl MemoryPanel {
    /// First address shown.
    pub closed spec fn spec_address(&self) -> u64 {
        self.address
    }

    /// Bytes per row.
    pub closed spec fn spec_bytes_per_row(&self) -> usize {
        self.bytes_per_row
    }

    /// Number of rows shown.
    pub closed spec fn spec_visible_rows(&self) -> usize {
        self.visible_rows
    }

    /// A view of 32 rows of 16 bytes from address 0.
    pub fn new() -> (p: Self)
        ensures
            p.spec_address() == 0,
            p.spec_bytes_per_row() == 16,
            p.spec_visible_rows() == 32,
    {
        MemoryPanel { address: 0x0, bytes_per_row: 16, visible_rows: 32 }
    }

    /// First address shown.
    pub fn address(&self) -> (a: u64)
        ensures
            a == self.spec_address(),
    {
        self.address
    }

    /// Bytes per row.
    pub fn bytes_per_row(&self) -> (n: usize)
        ensures
            n == self.spec_bytes_per_row(),
    {
        self.bytes_per_row
    }

    /// Number of rows shown.
    pub fn visible_rows(&self) -> (n: usize)
        ensures
            n == self.spec_visible_rows(),
    {
        self.visible_rows
    }

    /// The address field's text: `0x` and the address in hex.
    pub fn address_text(&self) -> (s: String)
        ensures
            s@ == "0x"@ + hex(self.spec_address() as nat),
    {
        let s = prefixed_hex(self.address, 0);
        assert(zero_padded(hex(self.address as nat), 0) == hex(self.address as nat));
        s
    }

    /// Takes the address typed in the address field, if it parses.
    pub fn set_address_text(&mut self, text: &str)
        ensures
            final(self).spec_address() == match parse_address(text@) {
                Some(a) => a,
                None => old(self).spec_address(),
            },
            final(self).spec_bytes_per_row() == old(self).spec_bytes_per_row(),
            final(self).spec_visible_rows() == old(self).spec_visible_rows(),
    {
        if let Some(a) = parse_address_text(text) {
            self.address = a;
        }
    }

    /// Moves the view up one row, unless it is at the start.
    pub fn scroll_up(&mut self)
        ensures
            final(self).spec_address() == if old(self).spec_address() >= old(self).spec_bytes_per_row() {
                (old(self).spec_address() - old(self).spec_bytes_per_row()) as u64
            } else {
                old(self).spec_address()
            },
            final(self).spec_bytes_per_row() == old(self).spec_bytes_per_row(),
            final(self).spec_visible_rows() == old(self).spec_visible_rows(),
    {
        if self.address >= self.bytes_per_row as u64 {
            self.address = self.address - self.bytes_per_row as u64;
        }
    }

    /// Moves the view down one row.
    pub fn scroll_down(&mut self)
        requires
            old(self).spec_address() + old(self).spec_bytes_per_row() <= u64::MAX,
        ensures
            final(self).spec_address() == old(self).spec_address() + old(self).spec_bytes_per_row(),
            final(self).spec_bytes_per_row() == old(self).spec_bytes_per_row(),
            final(self).spec_visible_rows() == old(self).spec_visible_rows(),
    {
        self.address = self.address + self.bytes_per_row as u64;
    }

    /// The range of addresses the view covers.
    pub fn view_range(&self) -> (r: Range<u64>)
        requires
            self.spec_address() + self.spec_bytes_per_row() * self.spec_visible_rows() <= u64::MAX,
        ensures
            r.start == self.spec_address(),
            r.end == self.spec_address() + self.spec_bytes_per_row() * self.spec_visible_rows(),
    {
        let total_bytes = (self.bytes_per_row as u64) * (self.visible_rows as u64);
        self.address..self.address + total_bytes
    }

    /// The rows of the dump of `data`, read from the view's address.
    pub fn rows(&self, data: &[u8]) -> (rows: Vec<HexRow>)
        requires
            self.spec_bytes_per_row() > 0,
            self.spec_address() + data@.len() <= u64::MAX,
        ensures
            rows@.len() == row_count(data@.len(), self.spec_bytes_per_row() as nat),
            forall|r: int| 0 <= r < rows@.len() ==> is_hex_row(
                #[trigger] rows@[r],
                self.spec_address(),
                data@,
                self.spec_bytes_per_row() as nat,
                r,
            ),
    {
        hex_dump_rows(self.address, data, self.bytes_per_row)
    }
}

impl Default for MemoryPanel {
    fn default() -> (p: Self)
        ensures
            p.spec_address() == 0,
            p.spec_bytes_per_row() == 16,
            p.spec_visible_rows() == 32,
    {
        Self::new()
    }
}

} // verus!

verus! {

proof fn lemma_hex_digit_roundtrip(d: int)
    requires
        0 <= d < 16,
    ensures
        is_hex_digit(crate::text::hex_digit(d)),
        hex_digit_value(crate::text::hex_digit(d)) == d,
{
}

/// The numeral `hex(n)` is made of hex digits and denotes `n`.
proof fn lemma_hex_numeral(n: nat)
    ensures
        all_hex_digits(hex(n)),
        hex_value(hex(n)) == n,
        hex(n).len() >= 1,
        hex(n)[0] != '+',
        hex(n).len() >= 2 ==> hex(n)[1] != 'x',
    decreases n,
{
    lemma_hex_digit_roundtrip((n % 16) as int);
    if n >= 16 {
        lemma_hex_numeral(n / 16);
        let h = hex(n);
        assert(h == hex(n / 16).push(crate::text::hex_digit((n % 16) as int)));
        assert(h.drop_last() =~= hex(n / 16));
        assert forall|i: int| 0 <= i < h.len() implies is_hex_digit(#[trigger] h[i]) by {
            if i < h.len() - 1 {
                assert(h[i] == hex(n / 16)[i]);
            }
        }
        if hex(n / 16).len() >= 2 {
            assert(h[1] == hex(n / 16)[1]);
        } else {
            assert(h[1] == crate::text::hex_digit((n % 16) as int));
        }
        assert(h[0] == hex(n / 16)[0]);
        assert(h.last() == crate::text::hex_digit((n % 16) as int));
        assert(hex_value(h) == hex_value(hex(n / 16)) * 16 + hex_digit_value(h.last()));
    } else {
        assert(hex(n).drop_last() =~= Seq::<char>::empty());
        assert(hex_value(Seq::<char>::empty()) == 0);
        assert(hex_value(hex(n)) == hex_value(hex(n).drop_last()) * 16 + hex_digit_value(hex(n).last()));
    }
}

/// Law: the address field's text parses back to the address it shows.
pub proof fn lemma_address_text_roundtrip(a: u64)
    ensures
        parse_address("0x"@ + hex(a as nat)) == Some(a),
{
    reveal_strlit("0x");
    lemma_hex_numeral(a as nat);
    let h = hex(a as nat);
    let s = "0x"@ + h;
    assert(s.subrange(2, s.len() as int) =~= h);
    assert(strip_0x(s) == strip_0x(h));
    assert(strip_0x(h) == h);
}

/// Where the view starts after scrolling down one row.
pub open spec fn scrolled_down(address: u64, per_row: usize) -> u64 {
    (address + per_row) as u64
}

/// Where the view starts after scrolling up one row.
pub open spec fn scrolled_up(address: u64, per_row: usize) -> u64 {
    if address >= per_row {
        (address - per_row) as u64
    } else {
        address
    }
}

/// Law: scrolling down one row and back up returns to the same address.
pub proof fn lemma_scroll_down_then_up(address: u64, per_row: usize)
    requires
        address + per_row <= u64::MAX,
    ensures
        scrolled_up(scrolled_down(address, per_row), per_row) == address,
{
}

/// Law: the hex dump shows every byte once: byte `k` is in row
/// `k / per_row`, column `k % per_row`.
pub proof fn lemma_dump_shows_every_byte(data: Seq<u8>, per_row: nat, k: int)
    requires
        per_row > 0,
        0 <= k < data.len(),
    ensures
        k / (per_row as int) < row_count(data.len(), per_row),
        row_bytes(data, per_row, k / (per_row as int))[k % (per_row as int)] == data[k],
{
    let p = per_row as int;
    let r = k / p;
    vstd::arithmetic::div_mod::lemma_fundamental_div_mod(k, p);
    vstd::arithmetic::div_mod::lemma_fundamental_div_mod(data.len() as int, p);
    assert(r * p + k % p == k);
    assert(r * p <= k);
    let len = data.len() as int;
    assert(r < len / p + if len % p == 0 {
        0int
    } else {
        1int
    }) by (nonlinear_arith)
        requires
            p > 0,
            r == k / p,
            0 <= k < len,
            len == (len / p) * p + len % p,
            0 <= len % p < p,
            k == r * p + k % p,
            0 <= k % p < p,
    {
        if r > len / p {
            assert(r >= len / p + 1);
            assert(r * p >= (len / p) * p + p);
        } else if r == len / p {
            assert(len % p != 0);
        }
    }
    assert(row_count(data.len(), per_row) == len / p + if len % p == 0 {
        0int
    } else {
        1int
    });
}

} // verus!
