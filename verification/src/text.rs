//! Text: comparison, decimal numbers, and the wide strings of Windows.

use vstd::prelude::*;

verus! {

/// `String::push` of the standard library: the character goes to the end, and
/// what was there stays.
pub assume_specification[ String::push ](s: &mut String, c: char)
    ensures
        final(s)@ == old(s)@.push(c),
;

/// `char::from_u32` of the standard library: the character with this code, or
/// `None` where no character has it.
pub assume_specification[ char::from_u32 ](i: u32) -> (r: Option<char>)
    ensures
        i < 0xD800 || 0xE000 <= i <= 0x10FFFF ==> r == Some(i as char),
        !(i < 0xD800 || 0xE000 <= i <= 0x10FFFF) ==> r is None,
;

/// The characters of a text, in order.
pub fn chars_of(s: &str) -> (r: Vec<char>)
    ensures
        r@ == s@,
{
    let mut v: Vec<char> = Vec::new();
    for c in it: s.chars()
        invariant
            v@ == it.seq().take(it.index() as int),
            it.seq() == s@,
    {
        v.push(c);
    }
    v
}

/// Tells whether two texts are the same.
pub fn same_text(a: &str, b: &str) -> (r: bool)
    ensures
        r == (a@ == b@),
{
    a.to_owned() == b.to_owned()
}

/// The codes that a character can have.
proof fn lemma_char_code(c: char)
    ensures
        0 <= c as int <= 0x10FFFF,
        !(0xD800 <= c as int && (c as int) < 0xE000),
{
}

/// `a` followed by `b`.
pub fn joined(a: &str, b: &str) -> (r: String)
    ensures
        r@ == a@ + b@,
{
    let mut out = a.to_owned();
    out.append(b);
    out
}

// ---------------------------------------------------------------------------
// Decimal numbers

/// The character of a decimal digit.
pub open spec fn digit(d: nat) -> char {
    (48 + d) as char
}

/// A natural number in decimal, without leading zeros.
pub open spec fn decimal_nat(n: nat) -> Seq<char>
    decreases n,
{
    if n < 10 {
        seq![digit(n)]
    } else {
        decimal_nat(n / 10).push(digit(n % 10))
    }
}

/// An integer in decimal, with a minus sign where it is negative.
pub open spec fn decimal(n: int) -> Seq<char> {
    if n < 0 {
        seq!['-'] + decimal_nat((-n) as nat)
    } else {
        decimal_nat(n as nat)
    }
}

fn push_decimal(out: &mut String, n: u64)
    ensures
        final(out)@ == old(out)@ + decimal_nat(n as nat),
    decreases n,
{
    if n >= 10 {
        push_decimal(out, n / 10);
    }
    out.push((48u8 + (n % 10) as u8) as char);
}

/// Writes an unsigned number in decimal.
pub fn decimal_u64(n: u64) -> (r: String)
    ensures
        r@ == decimal(n as int),
{
    let mut out = String::new();
    push_decimal(&mut out, n);
    out
}

/// Writes a signed number in decimal.
pub fn decimal_i64(n: i64) -> (r: String)
    ensures
        r@ == decimal(n as int),
{
    let mut out = String::new();
    if n < 0 {
        out.push('-');
        let rest: i64 = -(n + 1);
        push_decimal(&mut out, rest as u64 + 1);
    } else {
        push_decimal(&mut out, n as u64);
    }
    out
}

/// The character is a decimal digit.
pub open spec fn is_digit(c: char) -> bool {
    '0' <= c <= '9'
}

/// The number that a row of digits writes.
pub open spec fn digits_value(s: Seq<char>) -> nat
    decreases s.len(),
{
    if s.len() == 0 {
        0
    } else {
        digits_value(s.drop_last()) * 10 + (s.last() as nat - '0' as nat) as nat
    }
}

/// A text without one plus sign in front.
pub open spec fn without_plus(s: Seq<char>) -> Seq<char> {
    if s.len() > 0 && s[0] == '+' {
        s.drop_first()
    } else {
        s
    }
}

/// The text is a row of digits, at least one.
pub open spec fn is_digits(s: Seq<char>) -> bool {
    s.len() > 0 && forall|i: int| 0 <= i < s.len() ==> is_digit(#[trigger] s[i])
}

/// The index that a text writes: digits, with one plus sign allowed in front,
/// and a value that fits.
pub open spec fn parsed_usize(s: Seq<char>) -> Option<usize> {
    let digits = without_plus(s);
    if is_digits(digits) && digits_value(digits) <= usize::MAX {
        Some(digits_value(digits) as usize)
    } else {
        None
    }
}

/// Reads an index.
pub fn parse_usize(s: &str) -> (r: Option<usize>)
    ensures
        r == parsed_usize(s@),
{
    let chars = chars_of(s);
    let start: usize = if chars.len() > 0 && chars[0] == '+' {
        1
    } else {
        0
    };
    let ghost digits = without_plus(s@);
    assert(digits =~= s@.skip(start as int));
    if start == chars.len() {
        return None;
    }
    let mut value: usize = 0;
    let mut fits = true;
    let mut i: usize = start;
    while i < chars.len()
        invariant
            start <= i <= chars.len(),
            start <= 1,
            chars@ == s@,
            digits == s@.skip(start as int),
            digits.len() > 0,
            digits == without_plus(s@),
            forall|k: int| 0 <= k < i - start ==> is_digit(#[trigger] digits[k]),
            fits ==> value == digits_value(digits.take(i - start)),
            !fits ==> digits_value(digits.take(i - start)) > usize::MAX,
        decreases chars.len() - i,
    {
        let c = chars[i];
        assert(c == digits[i - start]);
        if c < '0' || c > '9' {
            assert(!is_digit(digits[i - start]));
            return None;
        }
        let d: usize = (c as u32 - 48) as usize;
        assert(digits.take(i + 1 - start).drop_last() =~= digits.take(i - start));
        assert(digits_value(digits.take(i + 1 - start)) == digits_value(digits.take(i - start)) * 10
            + d);
        if fits {
            if value <= (usize::MAX - d) / 10 {
                value = value * 10 + d;
            } else {
                fits = false;
            }
        }
        i = i + 1;
    }
    assert(digits.take(i - start) =~= digits);
    if fits {
        Some(value)
    } else {
        None
    }
}

/// A decimal number reads back as the number that was written.
pub proof fn decimal_reads_back(n: usize)
    ensures
        parsed_usize(decimal(n as int)) == Some(n),
{
    lemma_decimal_digits(n as nat);
    let s = decimal(n as int);
    assert(is_digit(s[0]));
}

proof fn lemma_decimal_digits(n: nat)
    ensures
        decimal_nat(n).len() > 0,
        forall|i: int| 0 <= i < decimal_nat(n).len() ==> is_digit(#[trigger] decimal_nat(n)[i]),
        digits_value(decimal_nat(n)) == n,
    decreases n,
{
    reveal_with_fuel(digits_value, 2);
    if n >= 10 {
        lemma_decimal_digits(n / 10);
        assert(decimal_nat(n).drop_last() =~= decimal_nat(n / 10));
        assert(decimal_nat(n).last() == digit(n % 10));
    } else {
        assert(decimal_nat(n).drop_last() =~= seq![]);
    }
}

// ---------------------------------------------------------------------------
// Comparison without regard to ASCII case, path separators, lines

/// The lower-case form of an ASCII letter; any other character stays.
pub open spec fn ascii_lower(c: char) -> char {
    if 'A' <= c <= 'Z' {
        (c as nat + 32) as char
    } else {
        c
    }
}

/// The texts differ at most in the case of ASCII letters.
pub open spec fn same_but_case(a: Seq<char>, b: Seq<char>) -> bool {
    a.map_values(|c: char| ascii_lower(c)) == b.map_values(|c: char| ascii_lower(c))
}

fn ascii_lower_of(c: char) -> (r: char)
    ensures
        r == ascii_lower(c),
{
    if 'A' <= c && c <= 'Z' {
        ((c as u32 + 32) as u8) as char
    } else {
        c
    }
}

/// Compares two texts without regard to the case of ASCII letters.
pub fn eq_ignore_ascii_case(a: &str, b: &str) -> (r: bool)
    ensures
        r == same_but_case(a@, b@),
{
    let x = chars_of(a);
    let y = chars_of(b);
    let ghost la = a@.map_values(|c: char| ascii_lower(c));
    let ghost lb = b@.map_values(|c: char| ascii_lower(c));
    if x.len() != y.len() {
        assert(la.len() != lb.len());
        return false;
    }
    let mut i: usize = 0;
    while i < x.len()
        invariant
            i <= x.len(),
            x.len() == y.len(),
            x@ == a@,
            y@ == b@,
            la == a@.map_values(|c: char| ascii_lower(c)),
            lb == b@.map_values(|c: char| ascii_lower(c)),
            forall|k: int| 0 <= k < i ==> la[k] == lb[k],
        decreases x.len() - i,
    {
        if ascii_lower_of(x[i]) != ascii_lower_of(y[i]) {
            assert(la[i as int] != lb[i as int]);
            return false;
        }
        i = i + 1;
    }
    assert(la =~= lb);
    true
}

/// A path with every backslash turned into a slash.
pub open spec fn slashed(path: Seq<char>) -> Seq<char> {
    path.map_values(|c: char| if c == '\\' { '/' } else { c })
}

/// Turns every backslash of a path into a slash.
pub fn forward_slashes(path: &str) -> (r: String)
    ensures
        r@ == slashed(path@),
{
    let mut out = String::new();
    for c in it: path.chars()
        invariant
            out@ == slashed(it.seq().take(it.index() as int)),
            it.seq() == path@,
    {
        let ghost before = it.seq().take(it.index() as int);
        if c == '\\' {
            out.push('/');
        } else {
            out.push(c);
        }
        assert(it.seq().take(it.index() + 1) =~= before.push(c));
        assert(out@ =~= slashed(before.push(c)));
    }
    assert(path@.take(path@.len() as int) =~= path@);
    out
}

/// The lines with a line feed between each and the next.
pub open spec fn joined_lines(lines: Seq<Seq<char>>) -> Seq<char>
    decreases lines.len(),
{
    if lines.len() == 0 {
        seq![]
    } else if lines.len() == 1 {
        lines[0]
    } else {
        joined_lines(lines.drop_last()).push('\n') + lines.last()
    }
}

/// The texts of a list.
pub open spec fn texts(list: Seq<String>) -> Seq<Seq<char>> {
    list.map_values(|s: String| s@)
}

/// Joins lines with line feeds.
pub fn join_lines(lines: &Vec<String>) -> (r: String)
    ensures
        r@ == joined_lines(texts(lines@)),
{
    let mut out = String::new();
    let mut i: usize = 0;
    while i < lines.len()
        invariant
            i <= lines.len(),
            out@ == joined_lines(texts(lines@.take(i as int))),
        decreases lines.len() - i,
    {
        proof {
            let t = texts(lines@.take(i + 1));
            assert(t.drop_last() =~= texts(lines@.take(i as int)));
            assert(t.last() == lines@[i as int]@);
            assert(i == 0 ==> t[0] == t.last());
        }
        if i > 0 {
            out.push('\n');
        }
        out.append(lines[i].as_str());
        assert(out@ =~= joined_lines(texts(lines@.take(i + 1))));
        i = i + 1;
    }
    assert(lines@.take(i as int) =~= lines@);
    out
}

// ---------------------------------------------------------------------------
// Wide strings

/// The code units of one character in UTF-16.
pub open spec fn utf16_units(c: char) -> Seq<u16> {
    let code = c as nat;
    if code < 0x1_0000 {
        seq![code as u16]
    } else {
        seq![
            (0xD800 + (code - 0x1_0000) / 0x400) as u16,
            (0xDC00 + (code - 0x1_0000) % 0x400) as u16,
        ]
    }
}

/// A text in UTF-16.
pub open spec fn utf16(s: Seq<char>) -> Seq<u16>
    decreases s.len(),
{
    if s.len() == 0 {
        seq![]
    } else {
        utf16_units(s[0]) + utf16(s.drop_first())
    }
}

/// The first half of a surrogate pair.
pub open spec fn is_high_surrogate(u: u16) -> bool {
    0xD800 <= u < 0xDC00
}

/// The second half of a surrogate pair.
pub open spec fn is_low_surrogate(u: u16) -> bool {
    0xDC00 <= u < 0xE000
}

/// The character of a surrogate pair.
pub open spec fn surrogate_pair(high: u16, low: u16) -> char {
    (0x1_0000 + (high - 0xD800) * 0x400 + (low - 0xDC00)) as char
}

/// The text of a row of UTF-16 code units, with U+FFFD for each half of a
/// surrogate pair that stands alone.
pub open spec fn utf16_text(units: Seq<u16>) -> Seq<char>
    decreases units.len(),
{
    if units.len() == 0 {
        seq![]
    } else if is_high_surrogate(units[0]) && units.len() >= 2 && is_low_surrogate(units[1]) {
        seq![surrogate_pair(units[0], units[1])] + utf16_text(units.skip(2))
    } else if is_high_surrogate(units[0]) || is_low_surrogate(units[0]) {
        seq!['\u{FFFD}'] + utf16_text(units.skip(1))
    } else {
        seq![units[0] as char] + utf16_text(units.skip(1))
    }
}

/// The units before the first NUL, or all of them where there is none.
pub open spec fn before_nul(units: Seq<u16>) -> Seq<u16>
    decreases units.len(),
{
    if units.len() == 0 || units[0] == 0 {
        seq![]
    } else {
        seq![units[0]] + before_nul(units.skip(1))
    }
}

/// Encodes a text in UTF-16, with a NUL at the end.
pub fn wide(s: &str) -> (r: Vec<u16>)
    ensures
        r@ == utf16(s@).push(0),
{
    let mut out: Vec<u16> = Vec::new();
    assert(s@.skip(0) =~= s@);
    for c in it: s.chars()
        invariant
            it.seq() == s@,
            utf16(s@) == out@ + utf16(it.seq().skip(it.index() as int)),
    {
        let ghost rest = it.seq().skip(it.index() as int);
        let ghost before = out@;
        assert(rest[0] == c);
        assert(rest.drop_first() =~= it.seq().skip(it.index() + 1));
        proof {
            lemma_char_code(c);
        }
        let code: u32 = c as u32;
        if code < 0x1_0000 {
            out.push(code as u16);
        } else {
            let v: u32 = code - 0x1_0000;
            out.push((0xD800 + v / 0x400) as u16);
            out.push((0xDC00 + v % 0x400) as u16);
        }
        assert(out@ =~= before + utf16_units(c));
        assert(out@ + utf16(rest.drop_first()) =~= before + utf16(rest));
    }
    out.push(0);
    out
}

/// Decodes a fixed UTF-16 buffer of the Windows API, up to its first NUL.
pub fn utf16_trimmed(buf: &[u16]) -> (r: String)
    ensures
        r@ == utf16_text(before_nul(buf@)),
{
    let mut len: usize = 0;
    assert(buf@.skip(0) =~= buf@);
    while len < buf.len() && buf[len] != 0
        invariant
            len <= buf.len(),
            before_nul(buf@) == buf@.take(len as int) + before_nul(buf@.skip(len as int)),
        decreases buf.len() - len,
    {
        let ghost rest = buf@.skip(len as int);
        assert(rest.skip(1) =~= buf@.skip(len + 1));
        assert(buf@.take(len + 1) =~= buf@.take(len as int).push(rest[0]));
        assert(buf@.take(len + 1) + before_nul(rest.skip(1)) =~= buf@.take(len as int)
            + before_nul(rest));
        len = len + 1;
    }
    let ghost units = buf@.take(len as int);
    assert(before_nul(buf@) =~= units);
    let mut out = String::new();
    let mut i: usize = 0;
    assert(units.skip(0) =~= units);
    while i < len
        invariant
            i <= len <= buf.len(),
            units == buf@.take(len as int),
            utf16_text(units) == out@ + utf16_text(units.skip(i as int)),
        decreases len - i,
    {
        let ghost rest = units.skip(i as int);
        let ghost before = out@;
        let u: u16 = buf[i];
        assert(u == rest[0]);
        if 0xD800 <= u && u < 0xDC00 && i + 1 < len && 0xDC00 <= buf[i + 1] && buf[i + 1] < 0xE000 {
            let code: u32 = 0x1_0000 + (u as u32 - 0xD800) * 0x400 + (buf[i + 1] as u32 - 0xDC00);
            match char::from_u32(code) {
                Some(c) => out.push(c),
                None => {},
            }
            assert(rest.skip(2) =~= units.skip(i + 2));
            assert(rest[1] == buf@[i + 1]);
            assert(out@ =~= before.push(surrogate_pair(rest[0], rest[1])));
            assert(out@ + utf16_text(rest.skip(2)) =~= before + utf16_text(rest));
            i = i + 2;
        } else {
            let ghost c = if 0xD800 <= u < 0xE000 {
                '\u{FFFD}'
            } else {
                u as char
            };
            if 0xD800 <= u && u < 0xE000 {
                out.push('\u{FFFD}');
            } else {
                match char::from_u32(u as u32) {
                    Some(c) => out.push(c),
                    None => {},
                }
            }
            assert(rest.len() >= 2 ==> rest[1] == buf@[i + 1]);
            assert(rest.skip(1) =~= units.skip(i + 1));
            assert(out@ =~= before.push(c));
            assert(out@ + utf16_text(rest.skip(1)) =~= before + utf16_text(rest));
            i = i + 1;
        }
    }
    assert(units.skip(i as int) =~= seq![]);
    assert(utf16_text(units) =~= out@);
    out
}

/// A text encoded for Windows and read back from the buffer is the same text,
/// unless it holds a NUL, where reading stops.
pub proof fn wide_reads_back(s: Seq<char>)
    requires
        forall|i: int| 0 <= i < s.len() ==> s[i] != '\0',
    ensures
        utf16_text(before_nul(utf16(s).push(0))) == s,
{
    lemma_before_nul(s);
    lemma_utf16_round_trip(s);
}

proof fn lemma_before_nul(s: Seq<char>)
    requires
        forall|i: int| 0 <= i < s.len() ==> s[i] != '\0',
    ensures
        before_nul(utf16(s).push(0)) == utf16(s),
    decreases s.len(),
{
    if s.len() == 0 {
        assert(utf16(s).push(0)[0] == 0);
    } else {
        let rest = s.drop_first();
        assert forall|i: int| 0 <= i < rest.len() implies rest[i] != '\0' by {
            assert(rest[i] == s[i + 1]);
        }
        lemma_before_nul(rest);
        lemma_char_code(s[0]);
        let units = utf16_units(s[0]);
        let whole = utf16(s).push(0);
        assert(whole =~= units + utf16(rest).push(0));
        assert(s[0] != '\0');
        if units.len() == 1 {
            assert(whole.skip(1) =~= utf16(rest).push(0));
            assert(before_nul(whole) =~= utf16(s));
        } else {
            let tail = whole.skip(1);
            assert(tail.skip(1) =~= utf16(rest).push(0));
            assert(tail[0] == units[1]);
            assert(whole[0] == units[0]);
            assert(before_nul(tail) =~= seq![units[1]] + utf16(rest));
            assert(before_nul(whole) =~= utf16(s));
        }
    }
}

proof fn lemma_utf16_round_trip(s: Seq<char>)
    ensures
        utf16_text(utf16(s)) == s,
    decreases s.len(),
{
    if s.len() > 0 {
        let rest = s.drop_first();
        lemma_utf16_round_trip(rest);
        lemma_char_code(s[0]);
        let units = utf16_units(s[0]);
        let whole = utf16(s);
        assert(whole =~= units + utf16(rest));
        if units.len() == 1 {
            assert(whole[0] == units[0]);
            assert(whole.skip(1) =~= utf16(rest));
            assert(utf16_text(whole) =~= s);
        } else {
            assert(whole[0] == units[0]);
            assert(whole[1] == units[1]);
            assert(whole.skip(2) =~= utf16(rest));
            assert(surrogate_pair(units[0], units[1]) == s[0]);
            assert(utf16_text(whole) =~= s);
        }
    }
}

/// A negative number is written as the positive one with a minus sign in front,
/// and different numbers are written differently.
pub proof fn negative_numbers_have_a_minus_sign(n: nat)
    ensures
        n > 0 ==> decimal(-n) == seq!['-'] + decimal(n as int),
        decimal(n as int).len() > 0,
        digits_value(decimal(n as int)) == n,
{
    lemma_decimal_digits(n);
}

/// An index is written with digits alone: a text that is empty, or holds anything
/// else but one plus sign in front, is none; the plus sign changes nothing, and a
/// zero in front neither.
pub proof fn only_digits_write_an_index(s: Seq<char>, i: int)
    ensures
        parsed_usize(seq![]) is None,
        1 <= i < s.len() && !('0' <= s[i] <= '9') ==> parsed_usize(s) is None,
        s.len() > 0 && !('0' <= s[0] <= '9') && s[0] != '+' ==> parsed_usize(s) is None,
        s.len() > 0 && '0' <= s[0] <= '9' ==> parsed_usize(seq!['+'] + s) == parsed_usize(s),
        s.len() > 0 && '0' <= s[0] <= '9' ==> parsed_usize(seq!['0'] + s) == parsed_usize(s),
{
    if 1 <= i < s.len() && !('0' <= s[i] <= '9') {
        let d = without_plus(s);
        let k = if s[0] == '+' {
            i - 1
        } else {
            i
        };
        assert(d[k] == s[i]);
        assert(!is_digit(d[k]));
    }
    if s.len() > 0 && !('0' <= s[0] <= '9') && s[0] != '+' {
        assert(!is_digit(without_plus(s)[0]));
    }
    if s.len() > 0 && '0' <= s[0] <= '9' {
        let plus = seq!['+'] + s;
        assert(plus.drop_first() =~= s);
        let zero = seq!['0'] + s;
        assert(zero[0] == '0');
        lemma_zero_in_front(s);
        if is_digits(s) {
            assert forall|k: int| 0 <= k < zero.len() implies is_digit(#[trigger] zero[k]) by {
                if k > 0 {
                    assert(zero[k] == s[k - 1]);
                }
            }
        } else {
            let k = choose|k: int| 0 <= k < s.len() && !is_digit(#[trigger] s[k]);
            assert(zero[k + 1] == s[k]);
        }
    }
}

proof fn lemma_zero_in_front(s: Seq<char>)
    ensures
        digits_value(seq!['0'] + s) == digits_value(s),
    decreases s.len(),
{
    let zero = seq!['0'] + s;
    if s.len() == 0 {
        reveal_with_fuel(digits_value, 2);
        assert(zero.drop_last() =~= seq![]);
    } else {
        assert(zero.drop_last() =~= seq!['0'] + s.drop_last());
        assert(zero.last() == s.last());
        lemma_zero_in_front(s.drop_last());
    }
}

/// A letter and its other case are the same where case does not count, and nothing
/// else is: texts that are the same but for case are as long as each other, and
/// where they differ both have the same letter of the alphabet.
pub proof fn only_letters_have_a_case(a: Seq<char>, b: Seq<char>, c: char, i: int)
    ensures
        same_but_case(a, a),
        same_but_case(a, b) ==> same_but_case(b, a),
        same_but_case(a, b) ==> a.len() == b.len(),
        same_but_case(a, b) && 0 <= i < a.len() && a[i] != b[i] ==> {
            ||| 'A' <= a[i] <= 'Z' && b[i] as int == a[i] as int + 32
            ||| 'A' <= b[i] <= 'Z' && a[i] as int == b[i] as int + 32
        },
        a.len() == b.len() && (forall|k: int|
            #![trigger a[k]]
            0 <= k < a.len() ==> a[k] == b[k] || ('A' <= a[k] <= 'Z' && b[k] as int == a[k] as int
                + 32) || ('A' <= b[k] <= 'Z' && a[k] as int == b[k] as int + 32)) ==> same_but_case(
            a,
            b,
        ),
        'A' <= c <= 'Z' ==> ascii_lower(c) as int == c as int + 32 && 'a' <= ascii_lower(c) <= 'z',
        !('A' <= c <= 'Z') ==> ascii_lower(c) == c,
{
    if a.len() == b.len() && (forall|k: int|
        #![trigger a[k]]
        0 <= k < a.len() ==> a[k] == b[k] || ('A' <= a[k] <= 'Z' && b[k] as int == a[k] as int + 32)
            || ('A' <= b[k] <= 'Z' && a[k] as int == b[k] as int + 32)) {
        let la = a.map_values(|c: char| ascii_lower(c));
        let lb = b.map_values(|c: char| ascii_lower(c));
        assert forall|k: int| 0 <= k < a.len() implies la[k] == lb[k] by {
            assert(la[k] == ascii_lower(a[k]) && lb[k] == ascii_lower(b[k]));
            assert(a[k] == b[k] || ('A' <= a[k] <= 'Z' && b[k] as int == a[k] as int + 32) || ('A'
                <= b[k] <= 'Z' && a[k] as int == b[k] as int + 32));
        }
        assert(la =~= lb);
    }
    if same_but_case(a, b) {
        let la = a.map_values(|c: char| ascii_lower(c));
        let lb = b.map_values(|c: char| ascii_lower(c));
        assert(la.len() == lb.len());
        if 0 <= i < a.len() {
            assert(la[i] == ascii_lower(a[i]) && lb[i] == ascii_lower(b[i]));
        }
    }
}

/// A path with slashes has no backslash, a slash where there was one, and every
/// other character in its place.
pub proof fn a_path_has_slashes_alone(path: Seq<char>, i: int)
    requires
        0 <= i < path.len(),
    ensures
        slashed(path).len() == path.len(),
        slashed(path)[i] != '\\',
        path[i] == '\\' ==> slashed(path)[i] == '/',
        path[i] != '\\' ==> slashed(path)[i] == path[i],
        slashed(slashed(path)) == slashed(path),
{
    assert(slashed(slashed(path)) =~= slashed(path));
}

/// Lines are told apart by one line feed each: two lists after one another are the
/// first, a line feed, and the second; and one line is itself.
pub proof fn lines_are_told_apart_by_line_feeds(a: Seq<Seq<char>>, b: Seq<Seq<char>>)
    requires
        a.len() > 0,
        b.len() > 0,
    ensures
        joined_lines(a + b) == joined_lines(a).push('\n') + joined_lines(b),
        b.len() == 1 ==> joined_lines(b) == b[0],
    decreases b.len(),
{
    assert((a + b).last() == b.last());
    assert((a + b).drop_last() =~= a + b.drop_last());
    if b.len() == 1 {
        assert(b.drop_last() =~= seq![]);
        assert(a + b.drop_last() =~= a);
        assert(joined_lines(a + b) =~= joined_lines(a).push('\n') + joined_lines(b));
    } else {
        lines_are_told_apart_by_line_feeds(a, b.drop_last());
        assert(joined_lines(a + b) =~= joined_lines(a).push('\n') + joined_lines(b));
    }
}

/// Reading a buffer stops at its first NUL: what is read has none, and is what the
/// buffer begins with; without a NUL all of it is read.
pub proof fn reading_stops_at_the_first_nul(units: Seq<u16>, i: int)
    ensures
        before_nul(units).is_prefix_of(units),
        0 <= i < before_nul(units).len() ==> before_nul(units)[i] != 0,
        before_nul(units).len() < units.len() ==> units[before_nul(units).len() as int] == 0,
    decreases units.len(),
{
    if units.len() > 0 && units[0] != 0 {
        reading_stops_at_the_first_nul(units.skip(1), i - 1);
        let rest = before_nul(units.skip(1));
        assert(before_nul(units) =~= seq![units[0]] + rest);
        assert forall|k: int| 0 <= k < before_nul(units).len() implies before_nul(units)[k]
            == units[k] by {
            if k > 0 {
                assert(rest[k - 1] == units.skip(1)[k - 1]);
            }
        }
        if before_nul(units).len() < units.len() {
            assert(units.skip(1)[rest.len() as int] == units[rest.len() as int + 1]);
        }
    }
}

/// Half of a surrogate pair that stands alone is shown as the replacement
/// character, and any other unit as the character with its code.
pub proof fn a_lone_half_is_replaced(u: u16)
    ensures
        0xD800 <= u < 0xE000 ==> utf16_text(seq![u]) == seq!['\u{FFFD}'],
        !(0xD800 <= u < 0xE000) ==> utf16_text(seq![u]) == seq![u as char],
{
    assert(seq![u].skip(1) =~= seq![]);
    reveal_with_fuel(utf16_text, 2);
    assert(utf16_text(seq![u]) =~= seq![
        if 0xD800 <= u < 0xE000 {
            '\u{FFFD}'
        } else {
            u as char
        },
    ]);
}

/// The texts of a list are those of its strings, in order.
pub proof fn texts_are_in_order(list: Seq<String>, i: int)
    ensures
        texts(list).len() == list.len(),
        0 <= i < list.len() ==> texts(list)[i] == list[i]@,
{
}

/// A row of digits writes its value where that fits an index, and nothing where
/// it does not.
pub proof fn digits_write_their_value(s: Seq<char>, d: char)
    requires
        s.len() > 0,
        forall|i: int| 0 <= i < s.len() ==> '0' <= #[trigger] s[i] <= '9',
        '0' <= d <= '9',
    ensures
        digits_value(s) <= usize::MAX ==> parsed_usize(s) == Some(digits_value(s) as usize),
        digits_value(s) > usize::MAX ==> parsed_usize(s) is None,
        digits_value(s.push(d)) == 10 * digits_value(s) + (d as int - 48),
{
    assert('0' <= s[0] <= '9');
    assert(without_plus(s) == s);
    assert(s.push(d).drop_last() =~= s);
    assert forall|i: int| 0 <= i < s.len() implies is_digit(#[trigger] s[i]) by {}
}

/// Two units are one character exactly where they are a pair: a first half and a
/// second half, in this order. Otherwise each is read by itself.
pub proof fn only_a_pair_is_one_character(a: u16, b: u16)
    ensures
        0xD800 <= a < 0xDC00 && 0xDC00 <= b < 0xE000 ==> utf16_text(seq![a, b]).len() == 1
            && utf16_text(seq![a, b])[0] as int == 0x1_0000 + (a - 0xD800) * 0x400 + (b - 0xDC00),
        !(0xD800 <= a < 0xDC00 && 0xDC00 <= b < 0xE000) ==> utf16_text(seq![a, b]) == utf16_text(
            seq![a],
        ) + utf16_text(seq![b]),
{
    let two = seq![a, b];
    assert(two.skip(1) =~= seq![b]);
    assert(two.skip(2) =~= seq![]);
    assert(seq![a].skip(1) =~= seq![]);
    reveal_with_fuel(utf16_text, 2);
    if 0xD800 <= a < 0xDC00 && 0xDC00 <= b < 0xE000 {
        assert(utf16_text(two) =~= seq![surrogate_pair(a, b)]);
    } else {
        assert(utf16_text(two) =~= utf16_text(seq![a]) + utf16_text(seq![b]));
    }
}

} // verus!
