//! Icons in the X bitmap format: the size and bits read from the text of an
//! XBM file, and the image of pixels made from them.
//!
//! A line that holds `_width` or `_height` gives the size as the last word
//! of the line; any other line that holds `0x` gives bytes, one for each
//! comma-separated token that reads as a hexadecimal byte.

use vstd::prelude::*;
use crate::text::{all_digits, decimal_value, parsed_unsigned, parse_unsigned, str_eq, unsigned_digits};

verus! {

/// A white-space character in the sense of Unicode, as `char::is_whitespace`
/// has it.
pub open spec fn is_space(c: char) -> bool {
    ||| c == ' '
    ||| ('\t' <= c && c <= '\r')
    ||| c == '\u{85}'
    ||| c == '\u{a0}'
    ||| c == '\u{1680}'
    ||| ('\u{2000}' <= c && c <= '\u{200a}')
    ||| c == '\u{2028}'
    ||| c == '\u{2029}'
    ||| c == '\u{202f}'
    ||| c == '\u{205f}'
    ||| c == '\u{3000}'
}

fn space(c: char) -> (r: bool)
    ensures
        r == is_space(c),
{
    c == ' ' || ('\t' <= c && c <= '\r') || c == '\u{85}' || c == '\u{a0}' || c == '\u{1680}' || ('\u{2000}'
        <= c && c <= '\u{200a}') || c == '\u{2028}' || c == '\u{2029}' || c == '\u{202f}' || c == '\u{205f}'
        || c == '\u{3000}'
}

/// `pat` occurs in `s` at index `i`.
pub open spec fn occurs_at(s: Seq<char>, pat: Seq<char>, i: int) -> bool {
    0 <= i && i + pat.len() <= s.len() && s.subrange(i, i + pat.len()) == pat
}

/// `pat` occurs somewhere in `s`.
pub open spec fn occurs(s: Seq<char>, pat: Seq<char>) -> bool {
    exists|i: int| occurs_at(s, pat, i)
}

/// Whether `pat` occurs in `s`.
pub fn contains_text(s: &str, pat: &str) -> (r: bool)
    ensures
        r == occurs(s@, pat@),
{
    let n = s.unicode_len();
    let m = pat.unicode_len();
    if m > n {
        assert forall|i: int| !occurs_at(s@, pat@, i) by {}
        return false;
    }
    if m == 0 {
        assert(s@.subrange(0, 0) =~= pat@);
        assert(occurs_at(s@, pat@, 0));
        return true;
    }
    let mut i: usize = 0;
    while i <= n - m
        invariant
            n == s@.len(),
            m == pat@.len(),
            0 < m <= n,
            i <= n - m + 1,
            forall|j: int| 0 <= j < i ==> !occurs_at(s@, pat@, j),
        decreases n - m + 1 - i,
    {
        if str_eq(s.substring_char(i, i + m), pat) {
            assert(occurs_at(s@, pat@, i as int));
            return true;
        }
        i = i + 1;
    }
    assert forall|j: int| !occurs_at(s@, pat@, j) by {
        if 0 <= j < i {
        }
    }
    false
}

/// Index of the first `c` in `s` at or after `from`, or the length of `s`.
pub open spec fn next_index(s: Seq<char>, c: char, from: int) -> int
    decreases s.len() - from,
{
    if from >= s.len() {
        s.len() as int
    } else if s[from] == c {
        from
    } else {
        next_index(s, c, from + 1)
    }
}

/// The index found is not before the start, not past the end, and holds `c`
/// unless it is the end.
pub proof fn lemma_next_index(s: Seq<char>, c: char, from: int)
    requires
        0 <= from <= s.len(),
    ensures
        from <= next_index(s, c, from) <= s.len(),
        next_index(s, c, from) < s.len() ==> s[next_index(s, c, from)] == c,
        forall|k: int| from <= k < next_index(s, c, from) ==> s[k] != c,
    decreases s.len() - from,
{
    if from < s.len() && s[from] != c {
        lemma_next_index(s, c, from + 1);
    }
}

/// Index of the first `c` in `s` at or after `from`, or the length of `s`.
fn find_char(s: &str, n: usize, c: char, from: usize) -> (r: usize)
    requires
        n == s@.len(),
        from <= n,
    ensures
        r == next_index(s@, c, from as int),
{
    let mut i = from;
    while i < n
        invariant
            n == s@.len(),
            from <= i <= n,
            next_index(s@, c, from as int) == next_index(s@, c, i as int),
        decreases n - i,
    {
        if s.get_char(i) == c {
            return i;
        }
        i = i + 1;
    }
    i
}

/// Index just after the last character before `end` that is no space, or 0.
pub open spec fn word_end(s: Seq<char>, end: int) -> int
    decreases end,
{
    if end <= 0 {
        0
    } else if !is_space(s[end - 1]) {
        end
    } else {
        word_end(s, end - 1)
    }
}

/// Index of the first character of the run of non-spaces that ends at `end`.
pub open spec fn word_start(s: Seq<char>, end: int) -> int
    decreases end,
{
    if end <= 0 {
        0
    } else if is_space(s[end - 1]) {
        end
    } else {
        word_start(s, end - 1)
    }
}

/// The last word of `s`: its last run of characters that are no spaces.
pub open spec fn last_word(s: Seq<char>) -> Option<Seq<char>> {
    let e = word_end(s, s.len() as int);
    if e <= 0 {
        None
    } else {
        Some(s.subrange(word_start(s, e), e))
    }
}

proof fn lemma_word_bounds(s: Seq<char>, end: int)
    requires
        0 <= end <= s.len(),
    ensures
        0 <= word_end(s, end) <= end,
        0 <= word_start(s, end) <= end,
    decreases end,
{
    if end > 0 {
        lemma_word_bounds(s, end - 1);
    }
}

/// The last word of `line`, if it has one.
fn last_word_of(line: &str) -> (r: Option<&str>)
    ensures
        match r {
            Some(w) => last_word(line@) == Some(w@),
            None => last_word(line@) is None,
        },
{
    let n = line.unicode_len();
    let mut e = n;
    while e > 0 && space(line.get_char(e - 1))
        invariant
            n == line@.len(),
            e <= n,
            word_end(line@, n as int) == word_end(line@, e as int),
        decreases e,
    {
        e = e - 1;
    }
    proof {
        lemma_word_bounds(line@, e as int);
    }
    if e == 0 {
        return None;
    }
    assert(word_end(line@, e as int) == e);
    let mut b = e;
    while b > 0 && !space(line.get_char(b - 1))
        invariant
            n == line@.len(),
            0 < e <= n,
            b <= e,
            word_start(line@, e as int) == word_start(line@, b as int),
        decreases b,
    {
        b = b - 1;
    }
    Some(line.substring_char(b, e))
}

/// A character trimmed from both ends of a byte token.
pub open spec fn is_trimmed(c: char) -> bool {
    c == ' ' || c == ';' || c == '}'
}

/// `s` without the trimmed characters at its front.
pub open spec fn trim_front(s: Seq<char>) -> Seq<char>
    decreases s.len(),
{
    if s.len() > 0 && is_trimmed(s[0]) {
        trim_front(s.drop_first())
    } else {
        s
    }
}

/// `s` without the trimmed characters at its end.
pub open spec fn trim_back(s: Seq<char>) -> Seq<char>
    decreases s.len(),
{
    if s.len() > 0 && is_trimmed(s.last()) {
        trim_back(s.drop_last())
    } else {
        s
    }
}

/// `s` without the `0x` prefixes at its front, however many.
pub open spec fn strip_hex_prefix(s: Seq<char>) -> Seq<char>
    decreases s.len(),
{
    if s.len() >= 2 && s[0] == '0' && s[1] == 'x' {
        strip_hex_prefix(s.subrange(2, s.len() as int))
    } else {
        s
    }
}

/// The character is a hexadecimal digit.
pub open spec fn is_hex_digit(c: char) -> bool {
    ('0' <= c && c <= '9') || ('a' <= c && c <= 'f') || ('A' <= c && c <= 'F')
}

/// Value of a hexadecimal digit.
pub open spec fn hex_digit_value(c: char) -> int {
    if c <= '9' {
        (c as int) - ('0' as int)
    } else if c <= 'F' {
        (c as int) - ('A' as int) + 10
    } else {
        (c as int) - ('a' as int) + 10
    }
}

/// Value of a sequence of hexadecimal digits.
pub open spec fn hex_value(s: Seq<char>) -> int
    decreases s.len(),
{
    if s.len() == 0 {
        0
    } else {
        hex_value(s.drop_last()) * 16 + hex_digit_value(s.last())
    }
}

/// All characters are hexadecimal digits.
pub open spec fn all_hex(s: Seq<char>) -> bool {
    forall|i: int| 0 <= i < s.len() ==> is_hex_digit(#[trigger] s[i])
}

/// The byte that `s` denotes in base 16: an optional `+` and at least one
/// hexadecimal digit, with a value that fits a byte.
pub open spec fn parsed_hex_byte(s: Seq<char>) -> Option<int> {
    let d = unsigned_digits(s);
    if d.len() > 0 && all_hex(d) && hex_value(d) <= 255 {
        Some(hex_value(d))
    } else {
        None
    }
}

/// The byte of a token: trimmed of spaces, semicolons and braces at both
/// ends, stripped of its `0x` prefixes and read in base 16.
pub open spec fn token_byte(t: Seq<char>) -> Option<int> {
    parsed_hex_byte(strip_hex_prefix(trim_back(trim_front(t))))
}

proof fn lemma_hex_nonneg(s: Seq<char>)
    requires
        all_hex(s),
    ensures
        hex_value(s) >= 0,
    decreases s.len(),
{
    if s.len() > 0 {
        assert(all_hex(s.drop_last()));
        lemma_hex_nonneg(s.drop_last());
        assert(is_hex_digit(s[s.len() - 1]));
    }
}

proof fn lemma_hex_step(s: Seq<char>, k: int)
    requires
        all_hex(s),
        0 < k <= s.len(),
    ensures
        hex_value(s.subrange(0, k - 1)) <= hex_value(s.subrange(0, k)),
        hex_value(s.subrange(0, k)) == hex_value(s.subrange(0, k - 1)) * 16 + hex_digit_value(s[k - 1]),
{
    let p = s.subrange(0, k);
    assert(p.drop_last() =~= s.subrange(0, k - 1));
    assert(all_hex(s.subrange(0, k - 1)));
    lemma_hex_nonneg(s.subrange(0, k - 1));
    assert(is_hex_digit(s[k - 1]));
}

proof fn lemma_hex_prefix_le(s: Seq<char>, k: int)
    requires
        all_hex(s),
        0 <= k <= s.len(),
    ensures
        hex_value(s.subrange(0, k)) <= hex_value(s),
    decreases s.len() - k,
{
    if k < s.len() {
        lemma_hex_step(s, k + 1);
        lemma_hex_prefix_le(s, k + 1);
    } else {
        assert(s.subrange(0, k) =~= s);
    }
}

/// Value of a hexadecimal digit character, if it is one.
fn hex_digit(c: char) -> (r: Option<u8>)
    ensures
        match r {
            Some(v) => is_hex_digit(c) && v == hex_digit_value(c),
            None => !is_hex_digit(c),
        },
{
    if '0' <= c && c <= '9' {
        Some(((c as u32) - ('0' as u32)) as u8)
    } else if 'a' <= c && c <= 'f' {
        Some(((c as u32) - ('a' as u32) + 10) as u8)
    } else if 'A' <= c && c <= 'F' {
        Some(((c as u32) - ('A' as u32) + 10) as u8)
    } else {
        None
    }
}

/// Read `s` as a byte in base 16.
fn parse_hex_byte(s: &str) -> (r: Option<u8>)
    ensures
        match r {
            Some(v) => parsed_hex_byte(s@) == Some(v as int),
            None => parsed_hex_byte(s@) is None,
        },
{
    let n = s.unicode_len();
    let mut i: usize = 0;
    if n > 0 && s.get_char(0) == '+' {
        i = 1;
    }
    let ghost d = unsigned_digits(s@);
    assert(d =~= s@.subrange(i as int, n as int));
    if i == n {
        return None;
    }
    let mut value: u8 = 0;
    let start = i;
    while i < n
        invariant
            n == s@.len(),
            start <= i <= n,
            start < n,
            d == s@.subrange(start as int, n as int),
            d == unsigned_digits(s@),
            all_hex(d.subrange(0, i - start)),
            value == hex_value(d.subrange(0, i - start)),
        decreases n - i,
    {
        let c = s.get_char(i);
        let ghost k = i - start;
        assert(d[k] == c);
        let digit = match hex_digit(c) {
            Some(v) => v,
            None => {
                assert(!all_hex(d));
                return None;
            },
        };
        assert(d.subrange(0, k + 1).drop_last() =~= d.subrange(0, k));
        assert(all_hex(d.subrange(0, k + 1)));
        assert(hex_value(d.subrange(0, k + 1)) == value * 16 + digit) by {
            assert(d.subrange(0, k + 1).last() == c);
        }
        if value > 15 || (value == 15 && digit > 15) {
            proof {
                if all_hex(d) {
                    lemma_hex_prefix_le(d, k + 1);
                }
            }
            return None;
        }
        value = value * 16 + digit;
        i = i + 1;
    }
    assert(d.subrange(0, n - start) =~= d);
    Some(value)
}

/// The byte of a token, if it reads as one.
fn token_byte_of(t: &str) -> (r: Option<u8>)
    ensures
        match r {
            Some(v) => token_byte(t@) == Some(v as int),
            None => token_byte(t@) is None,
        },
{
    let n = t.unicode_len();
    let mut a: usize = 0;
    assert(t@.subrange(0, n as int) =~= t@);
    while a < n && (t.get_char(a) == ' ' || t.get_char(a) == ';' || t.get_char(a) == '}')
        invariant
            n == t@.len(),
            a <= n,
            trim_front(t@) == trim_front(t@.subrange(a as int, n as int)),
        decreases n - a,
    {
        assert(t@.subrange(a as int, n as int).drop_first() =~= t@.subrange(a + 1, n as int));
        a = a + 1;
    }
    assert(trim_front(t@.subrange(a as int, n as int)) == t@.subrange(a as int, n as int));
    let mut b: usize = n;
    while b > a && (t.get_char(b - 1) == ' ' || t.get_char(b - 1) == ';' || t.get_char(b - 1) == '}')
        invariant
            n == t@.len(),
            a <= b <= n,
            trim_back(trim_front(t@)) == trim_back(t@.subrange(a as int, b as int)),
        decreases b - a,
    {
        assert(t@.subrange(a as int, b as int).drop_last() =~= t@.subrange(a as int, b - 1));
        b = b - 1;
    }
    assert(trim_back(t@.subrange(a as int, b as int)) == t@.subrange(a as int, b as int));
    while b - a >= 2 && t.get_char(a) == '0' && t.get_char(a + 1) == 'x'
        invariant
            n == t@.len(),
            a <= b <= n,
            strip_hex_prefix(trim_back(trim_front(t@))) == strip_hex_prefix(t@.subrange(a as int, b as int)),
        decreases b - a,
    {
        assert(t@.subrange(a as int, b as int).subrange(2, (b - a) as int) =~= t@.subrange(a + 2, b as int));
        a = a + 2;
    }
    assert(strip_hex_prefix(t@.subrange(a as int, b as int)) == t@.subrange(a as int, b as int));
    parse_hex_byte(t.substring_char(a, b))
}

/// The bytes of a line from index `j` on: one for each comma-separated
/// token that reads as a byte.
pub open spec fn line_bytes_from(line: Seq<char>, j: int) -> Seq<u8>
    decreases line.len() + 1 - j,
{
    if j < 0 || j > line.len() {
        Seq::empty()
    } else {
        let k = next_index(line, ',', j);
        proof {
            lemma_next_index(line, ',', j);
        }
        let b = match token_byte(line.subrange(j, k)) {
            Some(v) => seq![v as u8],
            None => Seq::empty(),
        };
        if k < line.len() {
            b + line_bytes_from(line, k + 1)
        } else {
            b
        }
    }
}

/// Append the bytes of a line to `out`.
fn push_line_bytes(line: &str, out: &mut Vec<u8>)
    ensures
        final(out)@ == old(out)@ + line_bytes_from(line@, 0),
{
    let n = line.unicode_len();
    let mut j: usize = 0;
    let mut more = true;
    while more
        invariant
            n == line@.len(),
            j <= n,
            more ==> old(out)@ + line_bytes_from(line@, 0) == out@ + line_bytes_from(line@, j as int),
            !more ==> out@ == old(out)@ + line_bytes_from(line@, 0),
        decreases n - j + (if more {
            1int
        } else {
            0int
        }),
    {
        let k = find_char(line, n, ',', j);
        proof {
            lemma_next_index(line@, ',', j as int);
        }
        let ghost before = out@;
        let token = line.substring_char(j, k);
        if let Some(v) = token_byte_of(token) {
            out.push(v);
        }
        if k < n {
            assert(out@ + line_bytes_from(line@, k + 1) =~= before + line_bytes_from(line@, j as int));
            j = k + 1;
        } else {
            assert(out@ =~= before + line_bytes_from(line@, j as int));
            more = false;
        }
    }
}

/// The line that starts at `start`: up to the next line feed, without a
/// carriage return right before that line feed.
pub open spec fn line_at(s: Seq<char>, start: int) -> Seq<char> {
    let e = next_index(s, '\n', start);
    if e < s.len() && e > start && s[e - 1] == '\r' {
        s.subrange(start, e - 1)
    } else {
        s.subrange(start, e)
    }
}

/// The size a line gives: its last word read as an unsigned decimal.
pub open spec fn size_of_line(line: Seq<char>) -> Option<int> {
    match last_word(line) {
        Some(w) => parsed_unsigned(w, usize::MAX as int),
        None => None,
    }
}

/// Width, height and bits after reading one more line, or `None` where a
/// size line does not end in a size.
pub open spec fn line_step(line: Seq<char>, acc: (int, int, Seq<u8>)) -> Option<(int, int, Seq<u8>)> {
    if occurs(line, "_width"@) {
        match size_of_line(line) {
            Some(w) => Some((w, acc.1, acc.2)),
            None => None,
        }
    } else if occurs(line, "_height"@) {
        match size_of_line(line) {
            Some(h) => Some((acc.0, h, acc.2)),
            None => None,
        }
    } else if occurs(line, "0x"@) {
        Some((acc.0, acc.1, acc.2 + line_bytes_from(line, 0)))
    } else {
        Some(acc)
    }
}

/// Width, height and bits after reading the lines from index `start` on.
pub open spec fn xbm_from(s: Seq<char>, start: int, acc: (int, int, Seq<u8>)) -> Option<(int, int, Seq<u8>)>
    decreases s.len() - start,
{
    if start < 0 || start >= s.len() {
        Some(acc)
    } else {
        let e = next_index(s, '\n', start);
        proof {
            lemma_next_index(s, '\n', start);
        }
        let step = line_step(line_at(s, start), acc);
        if step is Some && e < s.len() {
            xbm_from(s, e + 1, step.unwrap())
        } else {
            step
        }
    }
}

/// Width, height and bits of the text of an XBM file, starting from a size
/// of zero and no bits.
pub open spec fn xbm_parsed(s: Seq<char>) -> Option<(int, int, Seq<u8>)> {
    xbm_from(s, 0, (0, 0, Seq::empty()))
}

/// The size and bits of an XBM icon.
pub struct XbmBits {
    pub width: usize,
    pub height: usize,
    pub bits: Vec<u8>,
}

/// Why the text of an XBM file cannot be read.
#[derive(Clone, Copy, Debug, PartialEq, Eq, Structural)]
pub enum XbmError {
    /// A line with `_width` or `_height` does not end in a decimal size.
    BadSize,
}

/// Read the size of a size line.
fn line_size(line: &str) -> (r: Option<usize>)
    ensures
        match r {
            Some(v) => size_of_line(line@) == Some(v as int),
            None => size_of_line(line@) is None,
        },
{
    match last_word_of(line) {
        Some(w) => match parse_unsigned(w, usize::MAX as u64) {
            Some(v) => Some(v as usize),
            None => None,
        },
        None => None,
    }
}

/// Read the width, height and bits from the text of an XBM file, line by
/// line: the last of the `_width` and `_height` lines give the size, and
/// every other line with `0x` adds its bytes.
pub fn parse_xbm(text: &str) -> (r: Result<XbmBits, XbmError>)
    ensures
        match r {
            Ok(x) => xbm_parsed(text@) == Some((x.width as int, x.height as int, x.bits@)),
            Err(e) => xbm_parsed(text@) is None && e == XbmError::BadSize,
        },
{
    let n = text.unicode_len();
    let mut width: usize = 0;
    let mut height: usize = 0;
    let mut bits: Vec<u8> = Vec::new();
    let mut start: usize = 0;
    while start < n
        invariant
            n == text@.len(),
            start <= n,
            xbm_parsed(text@) == xbm_from(text@, start as int, (width as int, height as int, bits@)),
        decreases n - start,
    {
        let e = find_char(text, n, '\n', start);
        proof {
            lemma_next_index(text@, '\n', start as int);
        }
        let line_end = if e < n && e > start && text.get_char(e - 1) == '\r' {
            e - 1
        } else {
            e
        };
        let line = text.substring_char(start, line_end);
        assert(line@ == line_at(text@, start as int));
        let ghost acc = (width as int, height as int, bits@);
        if contains_text(line, "_width") {
            match line_size(line) {
                Some(w) => {
                    width = w;
                },
                None => {
                    return Err(XbmError::BadSize);
                },
            }
        } else if contains_text(line, "_height") {
            match line_size(line) {
                Some(h) => {
                    height = h;
                },
                None => {
                    return Err(XbmError::BadSize);
                },
            }
        } else if contains_text(line, "0x") {
            push_line_bytes(line, &mut bits);
        }
        assert(line_step(line_at(text@, start as int), acc) == Some((width as int, height as int, bits@)));
        proof {
            let a = (width as int, height as int, bits@);
            if e >= n {
                assert(xbm_from(text@, n as int, a) == Some(a));
            }
        }
        start = if e < n {
            e + 1
        } else {
            n
        };
    }
    Ok(XbmBits { width, height, bits })
}

/// Bytes in a row of the bits: one bit for each pixel, each row padded to
/// whole bytes.
pub open spec fn row_bytes(width: int) -> int {
    (width + 7) / 8
}

/// Bytes in a row of the image: `bits_per_pixel` bits for each pixel, each
/// row padded to 32 bits.
pub open spec fn stride(width: int, bits_per_pixel: int) -> int {
    ((width * bits_per_pixel + 31) / 32) * 4
}

/// The bit of pixel (`x`, `y`): rows of whole bytes, lowest bit first.
pub open spec fn pixel_bit(bits: Seq<u8>, width: int, x: int, y: int) -> u8 {
    (bits[y * row_bytes(width) + x / 8] >> ((x % 8) as u32)) & 1u8
}

/// The value of each color of a pixel: full for a set bit, else none.
pub open spec fn shade(bit: u8) -> u8 {
    if bit != 0 {
        255
    } else {
        0
    }
}

/// How many pixels of row `y` are drawn when all rows before `y0` and the
/// first `x0` pixels of row `y0` are.
pub open spec fn drawn_in_row(width: int, y: int, y0: int, x0: int) -> int {
    if y < y0 {
        width
    } else if y == y0 {
        x0
    } else {
        0
    }
}

/// Byte `k` of the image when all rows before `y0` and the first `x0`
/// pixels of row `y0` are drawn. Each drawn pixel sets its blue, green and
/// red byte, as far as its pixel has that many bytes, to its shade; with
/// less than a byte per pixel, every pixel of a row sets the first byte of
/// the row, and the last one drawn stays. All other bytes are zero.
pub open spec fn image_byte(bits: Seq<u8>, width: int, bits_per_pixel: int, k: int, y0: int, x0: int) -> u8 {
    let s = stride(width, bits_per_pixel);
    let bpb = bits_per_pixel / 8;
    let y = k / s;
    let r = k % s;
    let done = drawn_in_row(width, y, y0, x0);
    if bpb == 0 {
        if r == 0 && done > 0 {
            shade(pixel_bit(bits, width, done - 1, y))
        } else {
            0
        }
    } else if r / bpb < done && r % bpb < 3 {
        shade(pixel_bit(bits, width, r / bpb, y))
    } else {
        0
    }
}

/// The image of the bits: `height` rows of `stride` bytes.
pub open spec fn image_of(bits: Seq<u8>, width: int, height: int, bits_per_pixel: int) -> Seq<u8> {
    Seq::new(
        (height * stride(width, bits_per_pixel)) as nat,
        |k: int| image_byte(bits, width, bits_per_pixel, k, height, 0),
    )
}

/// The image can be made: its sizes fit the machine, the bits cover every
/// row, and pixels have bits where there are any.
pub open spec fn image_fits(bits_len: int, width: int, height: int, bits_per_pixel: int) -> bool {
    &&& width * bits_per_pixel + 31 <= usize::MAX
    &&& height * stride(width, bits_per_pixel) <= usize::MAX
    &&& bits_len >= height * row_bytes(width)
    &&& width > 0 && height > 0 ==> bits_per_pixel > 0
}

proof fn lemma_stride(width: int, bits_per_pixel: int)
    requires
        width > 0,
        bits_per_pixel > 0,
    ensures
        stride(width, bits_per_pixel) >= 4,
        stride(width, bits_per_pixel) >= width * (bits_per_pixel / 8),
{
    let n = width * bits_per_pixel;
    let q = (n + 31) / 32;
    assert(n >= 1) by (nonlinear_arith)
        requires
            width > 0,
            bits_per_pixel > 0,
            n == width * bits_per_pixel,
    ;
    assert(32 * q >= n);
    assert(q >= 1);
    let bpb = bits_per_pixel / 8;
    assert(8 * bpb <= bits_per_pixel);
    assert(width * (8 * bpb) <= n) by (nonlinear_arith)
        requires
            width > 0,
            8 * bpb <= bits_per_pixel,
            n == width * bits_per_pixel,
    ;
    assert(width * (8 * bpb) == 8 * (width * bpb)) by (nonlinear_arith);
}

/// Drawing pixel (`x`, `y`) sets the bytes of that pixel and nothing else.
proof fn lemma_image_step(bits: Seq<u8>, width: int, height: int, bits_per_pixel: int, y: int, x: int, k: int)
    requires
        0 <= y < height,
        0 <= x < width,
        bits_per_pixel > 0,
        0 <= k < height * stride(width, bits_per_pixel),
    ensures
        ({
            let s = stride(width, bits_per_pixel);
            let bpb = bits_per_pixel / 8;
            let off = y * s + x * bpb;
            let written = if bpb == 0 {
                k == off
            } else {
                off <= k < off + (if bpb < 3 {
                    bpb
                } else {
                    3
                })
            };
            image_byte(bits, width, bits_per_pixel, k, y, x + 1) == if written {
                shade(pixel_bit(bits, width, x, y))
            } else {
                image_byte(bits, width, bits_per_pixel, k, y, x)
            }
        }),
{
    let s = stride(width, bits_per_pixel);
    let bpb = bits_per_pixel / 8;
    let off = y * s + x * bpb;
    lemma_stride(width, bits_per_pixel);
    vstd::arithmetic::div_mod::lemma_fundamental_div_mod(k, s);
    let yk = k / s;
    let r = k % s;
    assert(k == s * yk + r);
    if bpb == 0 {
        assert(x * bpb == 0) by (nonlinear_arith)
            requires
                bpb == 0,
        ;
        if k == off {
            assert(k == y * s + 0);
            vstd::arithmetic::div_mod::lemma_fundamental_div_mod_converse(k, s, y, 0);
        }
        if yk == y && r == 0 {
            assert(k == y * s) by (nonlinear_arith)
                requires
                    k == s * yk + r,
                    yk == y,
                    r == 0,
            ;
        }
    } else {
        assert(x * bpb + bpb <= s) by (nonlinear_arith)
            requires
                x < width,
                s >= width * bpb,
                bpb > 0,
        ;
        if off <= k < off + (if bpb < 3 {
            bpb
        } else {
            3
        }) {
            let c = k - off;
            vstd::arithmetic::div_mod::lemma_fundamental_div_mod_converse(k, s, y, x * bpb + c);
            vstd::arithmetic::div_mod::lemma_fundamental_div_mod_converse(x * bpb + c, bpb, x, c);
        }
        vstd::arithmetic::div_mod::lemma_fundamental_div_mod(r, bpb);
        if yk == y && r / bpb == x && r % bpb < 3 {
            assert(k == y * s + x * bpb + r % bpb) by (nonlinear_arith)
                requires
                    k == s * yk + r,
                    r == bpb * (r / bpb) + r % bpb,
                    yk == y,
                    r / bpb == x,
            ;
        }
    }
}

/// Turn the bits of an XBM icon into an image with `bits_per_pixel` bits
/// for each pixel, rows padded to 32 bits: each pixel gets its blue, green
/// and red byte (as far as it has that many) set to full for a set bit.
pub fn xbm_image(bits: &Vec<u8>, width: usize, height: usize, bits_per_pixel: usize) -> (r: Vec<u8>)
    requires
        image_fits(bits.len() as int, width as int, height as int, bits_per_pixel as int),
    ensures
        r@ == image_of(bits@, width as int, height as int, bits_per_pixel as int),
{
    let bpb = bits_per_pixel / 8;
    assert((width * bits_per_pixel + 31) / 32 * 4 <= width * bits_per_pixel + 31);
    let s: usize = ((width * bits_per_pixel + 31) / 32) * 4;
    let len: usize = height * s;
    let ghost w = width as int;
    let ghost h = height as int;
    let ghost bpp = bits_per_pixel as int;
    let mut img: Vec<u8> = Vec::new();
    while img.len() < len
        invariant
            img.len() <= len,
            forall|k: int| 0 <= k < img.len() ==> img@[k] == 0u8,
        decreases len - img.len(),
    {
        img.push(0);
    }
    assert forall|k: int| 0 <= k < len implies img@[k] == image_byte(bits@, w, bpp, k, 0, 0) by {
        if s > 0 {
            vstd::arithmetic::div_mod::lemma_fundamental_div_mod(k, s as int);
            assert(k / (s as int) >= 0) by (nonlinear_arith)
                requires
                    k >= 0,
                    s > 0,
            ;
            let r = k % (s as int);
            assert(r >= 0);
            if bpb > 0 {
                assert(r / (bpb as int) >= 0) by (nonlinear_arith)
                    requires
                        r >= 0,
                        bpb > 0,
                ;
            }
        } else {
            assert(len == 0) by (nonlinear_arith)
                requires
                    len == height * s,
                    s == 0,
            ;
        }
    }
    if width == 0 || height == 0 {
        assert(img@ =~= image_of(bits@, w, h, bpp)) by {
            assert forall|k: int| 0 <= k < len implies img@[k] == image_byte(bits@, w, bpp, k, h, 0) by {
                assert(width > 0) by {
                    if width == 0 {
                        assert(width * bits_per_pixel == 0) by (nonlinear_arith)
                            requires
                                width == 0,
                        ;
                        assert(s == 0);
                        assert(len == 0) by (nonlinear_arith)
                            requires
                                len == height * s,
                                s == 0,
                        ;
                    }
                }
                assert(height > 0) by {
                    if height == 0 {
                        assert(len == 0) by (nonlinear_arith)
                            requires
                                len == height * s,
                                height == 0,
                        ;
                    }
                }
            }
        }
        return img;
    }
    proof {
        lemma_stride(w, bpp);
        assert(width + 7 <= width * bits_per_pixel + 31) by (nonlinear_arith)
            requires
                width > 0,
                bits_per_pixel > 0,
        ;
    }
    let rb: usize = (width + 7) / 8;
    let mut y: usize = 0;
    while y < height
        invariant
            0 < width,
            0 < height,
            bits_per_pixel > 0,
            y <= height,
            s == stride(w, bpp),
            s >= 4,
            s >= w * (bpp / 8),
            bpb == bpp / 8,
            rb == row_bytes(w),
            len == height * s,
            img.len() == len,
            bits.len() >= height * rb,
            w == width,
            h == height,
            bpp == bits_per_pixel,
            forall|k: int| 0 <= k < len ==> img@[k] == image_byte(bits@, w, bpp, k, y as int, 0),
        decreases height - y,
    {
        let mut x: usize = 0;
        while x < width
            invariant
                0 < width,
                0 < height,
                bits_per_pixel > 0,
                y < height,
                x <= width,
                s == stride(w, bpp),
                s >= 4,
                s >= w * (bpp / 8),
                bpb == bpp / 8,
                rb == row_bytes(w),
                len == height * s,
                img.len() == len,
                bits.len() >= height * rb,
                w == width,
                h == height,
                bpp == bits_per_pixel,
                forall|k: int| 0 <= k < len ==> img@[k] == image_byte(bits@, w, bpp, k, y as int, x as int),
            decreases width - x,
        {
            assert(y * rb + x / 8 < height * rb) by (nonlinear_arith)
                requires
                    y < height,
                    x < width,
                    rb == (width + 7) / 8,
            ;
            let byte_index = y * rb + x / 8;
            let bit = (bits[byte_index] >> ((x % 8) as u32)) & 1u8;
            let color: u8 = if bit != 0 {
                255
            } else {
                0
            };
            assert(color == shade(pixel_bit(bits@, w, x as int, y as int)));
            assert(y * s + x * bpb + (if bpb < 3 {
                bpb
            } else {
                3
            }) <= len) by (nonlinear_arith)
                requires
                    y < height,
                    x < width,
                    s >= width * bpb,
                    len == height * s,
            ;
            assert(y * s < len) by (nonlinear_arith)
                requires
                    y < height,
                    s >= 4,
                    len == height * s,
            ;
            if bpb == 0 {
                assert(x * bpb == 0) by (nonlinear_arith)
                    requires
                        bpb == 0,
                ;
            }
            let off = y * s + x * bpb;
            img.set(off, color);
            if bpb > 1 {
                img.set(off + 1, color);
            }
            if bpb > 2 {
                img.set(off + 2, color);
            }
            assert forall|k: int| 0 <= k < len implies img@[k] == image_byte(
                bits@,
                w,
                bpp,
                k,
                y as int,
                x + 1,
            ) by {
                lemma_image_step(bits@, w, h, bpp, y as int, x as int, k);
            }
            x = x + 1;
        }
        assert forall|k: int| 0 <= k < len implies img@[k] == image_byte(bits@, w, bpp, k, y + 1, 0) by {
            assert(image_byte(bits@, w, bpp, k, y as int, w) == image_byte(bits@, w, bpp, k, y + 1, 0));
        }
        y = y + 1;
    }
    assert(img@ =~= image_of(bits@, w, h, bpp));
    img
}

/// Read an XBM icon from the text of its file and make its image with
/// `bits_per_pixel` bits for each pixel; the size comes back cut to 16 bits.
pub fn load_xbm(text: &str, bits_per_pixel: usize) -> (r: Result<(Vec<u8>, u16, u16), XbmError>)
    requires
        match xbm_parsed(text@) {
            Some(p) => image_fits(p.2.len() as int, p.0, p.1, bits_per_pixel as int),
            None => true,
        },
    ensures
        match xbm_parsed(text@) {
            Some(p) => r matches Ok(v) && v.0@ == image_of(p.2, p.0, p.1, bits_per_pixel as int) && v.1 == p.0 as u16
                && v.2 == p.1 as u16,
            None => r matches Err(e) && e == XbmError::BadSize,
        },
{
    match parse_xbm(text) {
        Ok(x) => {
            let img = xbm_image(&x.bits, x.width, x.height, bits_per_pixel);
            Ok((img, x.width as u16, x.height as u16))
        },
        Err(e) => Err(e),
    }
}

} // verus!
