//! Character-level text primitives: reading and building strings, whitespace
//! trimming, decimal and hexadecimal digits, and unsigned integer parsing with
//! the semantics of `str::parse::<u64>` / `u8::from_str_radix`.
use vstd::prelude::*;

verus! {

/// Appends one character to the end of a string (std's `String::push`):
/// the new contents are the old contents followed by `c`.
#[verifier::external_body]
pub(crate) fn push_char(s: &mut String, c: char)
    ensures
        final(s)@ == old(s)@.push(c),
{
    s.push(c);
}

/// The characters of a string slice, in order.
pub fn chars_of(s: &str) -> (v: Vec<char>)
    ensures
        v@ == s@,
{
    let mut v: Vec<char> = Vec::new();
    for c in it: s.chars()
        invariant
            v@ == it.seq().take(it.index() as int),
    {
        v.push(c);
    }
    v
}

/// A string holding the characters `v[start..end]`.
pub fn string_from_range(v: &Vec<char>, start: usize, end: usize) -> (s: String)
    requires
        start <= end <= v@.len(),
    ensures
        s@ == v@.subrange(start as int, end as int),
{
    let mut s = String::new();
    let mut i = start;
    while i < end
        invariant
            start <= i <= end <= v@.len(),
            s@ == v@.subrange(start as int, i as int),
        decreases end - i,
    {
        push_char(&mut s, v[i]);
        assert(v@.subrange(start as int, i + 1) =~= v@.subrange(start as int, i as int).push(v@[i as int]));
        i = i + 1;
    }
    s
}

/// A string holding all the characters of `v`.
pub fn string_from_chars(v: &Vec<char>) -> (s: String)
    ensures
        s@ == v@,
{
    let s = string_from_range(v, 0, v.len());
    assert(v@.subrange(0, v@.len() as int) =~= v@);
    s
}

/// Appends every character of `t` to `s`.
pub fn push_seq(s: &mut String, t: &Vec<char>)
    ensures
        final(s)@ == old(s)@ + t@,
{
    let mut i: usize = 0;
    while i < t.len()
        invariant
            i <= t@.len(),
            s@ == old(s)@ + t@.take(i as int),
        decreases t@.len() - i,
    {
        push_char(s, t[i]);
        assert(t@.take(i + 1) =~= t@.take(i as int).push(t@[i as int]));
        i = i + 1;
    }
    assert(t@.take(t@.len() as int) =~= t@);
}

/// Appends every character of the string slice `t` to `s`.
pub fn push_str_chars(s: &mut String, t: &str)
    ensures
        final(s)@ == old(s)@ + t@,
{
    let v = chars_of(t);
    push_seq(s, &v);
}

// ---------------------------------------------------------------------------
// Whitespace and trimming
// ---------------------------------------------------------------------------

/// The Unicode `White_Space` property, as `char::is_whitespace` decides it.
pub open spec fn is_whitespace(c: char) -> bool {
    let v = c as u32;
    ||| 0x09 <= v <= 0x0d
    ||| v == 0x20
    ||| v == 0x85
    ||| v == 0xa0
    ||| v == 0x1680
    ||| 0x2000 <= v <= 0x200a
    ||| v == 0x2028
    ||| v == 0x2029
    ||| v == 0x202f
    ||| v == 0x205f
    ||| v == 0x3000
}

/// Decides `is_whitespace`.
pub fn char_is_whitespace(c: char) -> (r: bool)
    ensures
        r == is_whitespace(c),
{
    let v = c as u32;
    (0x09 <= v && v <= 0x0d) || v == 0x20 || v == 0x85 || v == 0xa0 || v == 0x1680 || (0x2000
        <= v && v <= 0x200a) || v == 0x2028 || v == 0x2029 || v == 0x202f || v == 0x205f || v
        == 0x3000
}

/// `s` without its leading whitespace.
pub open spec fn trim_start(s: Seq<char>) -> Seq<char>
    decreases s.len(),
{
    if s.len() > 0 && is_whitespace(s[0]) {
        trim_start(s.drop_first())
    } else {
        s
    }
}

/// `s` without its trailing whitespace.
pub open spec fn trim_end(s: Seq<char>) -> Seq<char>
    decreases s.len(),
{
    if s.len() > 0 && is_whitespace(s.last()) {
        trim_end(s.drop_last())
    } else {
        s
    }
}

/// `s` without leading and trailing whitespace (`str::trim`).
pub open spec fn trim(s: Seq<char>) -> Seq<char> {
    trim_end(trim_start(s))
}

/// Whether `s` holds nothing but whitespace (`s.trim().is_empty()`).
pub open spec fn is_blank(s: Seq<char>) -> bool {
    trim(s).len() == 0
}

proof fn lemma_trim_start_step(s: Seq<char>, i: int)
    requires
        0 <= i < s.len(),
        is_whitespace(s[i]),
    ensures
        trim_start(s.subrange(i, s.len() as int)) == trim_start(s.subrange(i + 1, s.len() as int)),
{
    let t = s.subrange(i, s.len() as int);
    assert(t.drop_first() =~= s.subrange(i + 1, s.len() as int));
}

proof fn lemma_trim_end_step(s: Seq<char>, a: int, j: int)
    requires
        0 <= a < j <= s.len(),
        is_whitespace(s[j - 1]),
    ensures
        trim_end(s.subrange(a, j)) == trim_end(s.subrange(a, j - 1)),
{
    let t = s.subrange(a, j);
    assert(t.drop_last() =~= s.subrange(a, j - 1));
}

/// The bounds `(a, b)` such that `v[a..b]` is `v` with its leading and trailing
/// whitespace removed.
pub fn trim_bounds(v: &Vec<char>) -> (r: (usize, usize))
    ensures
        r.0 <= r.1 <= v@.len(),
        trim(v@) == v@.subrange(r.0 as int, r.1 as int),
{
    let n = v.len();
    let mut i: usize = 0;
    assert(v@.subrange(0, n as int) =~= v@);
    while i < n && char_is_whitespace(v[i])
        invariant
            i <= n == v@.len(),
            trim_start(v@) == trim_start(v@.subrange(i as int, n as int)),
        decreases n - i,
    {
        proof {
            lemma_trim_start_step(v@, i as int);
        }
        i = i + 1;
    }
    assert(trim_start(v@) == v@.subrange(i as int, n as int));
    let mut j: usize = n;
    while j > i && char_is_whitespace(v[j - 1])
        invariant
            i <= j <= n == v@.len(),
            trim(v@) == trim_end(v@.subrange(i as int, j as int)),
        decreases j - i,
    {
        proof {
            lemma_trim_end_step(v@, i as int, j as int);
        }
        j = j - 1;
    }
    (i, j)
}

/// `s.trim()`, as a new string.
pub fn trim_string(s: &str) -> (r: String)
    ensures
        r@ == trim(s@),
{
    let v = chars_of(s);
    let (a, b) = trim_bounds(&v);
    string_from_range(&v, a, b)
}

/// `s.trim().is_empty()`.
pub fn string_is_blank(s: &str) -> (r: bool)
    ensures
        r == is_blank(s@),
{
    let v = chars_of(s);
    let (a, b) = trim_bounds(&v);
    a == b
}

// ---------------------------------------------------------------------------
// Digits
// ---------------------------------------------------------------------------

/// The character of a decimal digit `d < 10`.
pub open spec fn decimal_digit(d: nat) -> char {
    (48 + d) as char
}

/// The lower-case character of a hexadecimal digit `d < 16`.
pub open spec fn hex_digit(d: nat) -> char {
    if d < 10 {
        (48 + d) as char
    } else {
        (87 + d) as char
    }
}

/// The decimal representation of `n`, without leading zeros (`n.to_string()`).
pub open spec fn decimal(n: nat) -> Seq<char>
    decreases n,
{
    if n < 10 {
        seq![decimal_digit(n)]
    } else {
        decimal(n / 10).push(decimal_digit(n % 10))
    }
}

/// `s` left-padded with `'0'` to at least two characters (the `{:0>2}` format).
pub open spec fn zero_pad2(s: Seq<char>) -> Seq<char> {
    if s.len() < 2 {
        Seq::new((2 - s.len()) as nat, |i: int| '0') + s
    } else {
        s
    }
}

/// `s` left-padded with `'0'` to at least `width` characters (the `{:0>w}`
/// format).
pub open spec fn zero_pad(s: Seq<char>, width: nat) -> Seq<char> {
    if s.len() < width {
        Seq::new((width - s.len()) as nat, |i: int| '0') + s
    } else {
        s
    }
}

/// The two lower-case hexadecimal digits of a byte (the `{:0>2x}` format).
pub open spec fn hex2(b: u8) -> Seq<char> {
    seq![hex_digit(b as nat / 16), hex_digit(b as nat % 16)]
}

fn decimal_digit_char(d: u64) -> (c: char)
    requires
        d < 10,
    ensures
        c == decimal_digit(d as nat),
{
    let b: u8 = 48u8 + (d as u8);
    b as char
}

fn hex_digit_char(d: u8) -> (c: char)
    requires
        d < 16,
    ensures
        c == hex_digit(d as nat),
{
    if d < 10 {
        let b: u8 = 48u8 + d;
        b as char
    } else {
        let b: u8 = 87u8 + d;
        b as char
    }
}

/// Appends the decimal representation of `n` to `s`.
pub fn push_decimal(s: &mut String, n: u64)
    ensures
        final(s)@ == old(s)@ + decimal(n as nat),
    decreases n,
{
    if n >= 10 {
        push_decimal(s, n / 10);
        push_char(s, decimal_digit_char(n % 10));
        assert(old(s)@ + decimal(n as nat) =~= old(s)@ + decimal((n / 10) as nat) + seq![
            decimal_digit((n % 10) as nat),
        ]);
    } else {
        push_char(s, decimal_digit_char(n));
        assert(old(s)@ + decimal(n as nat) =~= old(s)@.push(decimal_digit(n as nat)));
    }
}

/// Appends `n` in decimal, zero-padded to at least two digits.
pub fn push_decimal_pad2(s: &mut String, n: u64)
    ensures
        final(s)@ == old(s)@ + zero_pad2(decimal(n as nat)),
{
    let ghost d = decimal(n as nat);
    if n < 10 {
        push_char(s, '0');
        push_decimal(s, n);
        assert(decimal(n as nat).len() == 1);
        assert(zero_pad2(d) =~= seq!['0'] + d);
        assert(old(s)@ + zero_pad2(d) =~= old(s)@.push('0') + d);
    } else {
        proof {
            lemma_decimal_len_ge2(n as nat);
        }
        push_decimal(s, n);
    }
}

/// Appends `n` in decimal, zero-padded to at least `width` digits.
pub fn push_decimal_padded(s: &mut String, n: u64, width: usize)
    ensures
        final(s)@ == old(s)@ + zero_pad(decimal(n as nat), width as nat),
{
    let mut digits = String::new();
    push_decimal(&mut digits, n);
    assert(digits@ =~= decimal(n as nat));
    let v = chars_of(digits.as_str());
    let mut k: usize = v.len();
    let ghost start = s@;
    while k < width
        invariant
            v@ == decimal(n as nat),
            v@.len() <= k <= width || (k == v@.len() && k >= width),
            s@ == start + Seq::new((k - v@.len()) as nat, |i: int| '0'),
        decreases width - k,
    {
        push_char(s, '0');
        assert(start + Seq::new((k + 1 - v@.len()) as nat, |i: int| '0') =~= (start + Seq::new(
            (k - v@.len()) as nat,
            |i: int| '0',
        )).push('0'));
        k = k + 1;
    }
    push_seq(s, &v);
    if v.len() < width {
        assert(k == width);
        assert(s@ =~= start + zero_pad(decimal(n as nat), width as nat));
    } else {
        assert(Seq::new((k - v@.len()) as nat, |i: int| '0') =~= Seq::<char>::empty());
        assert(s@ =~= start + zero_pad(decimal(n as nat), width as nat));
    }
}

proof fn lemma_decimal_len_ge2(n: nat)
    requires
        n >= 10,
    ensures
        decimal(n).len() >= 2,
    decreases n,
{
    if n / 10 >= 10 {
        lemma_decimal_len_ge2(n / 10);
    } else {
        assert(decimal(n / 10).len() == 1);
    }
    assert(decimal(n) == decimal(n / 10).push(decimal_digit(n % 10)));
}

/// Appends the two lower-case hexadecimal digits of `b`.
pub fn push_hex2(s: &mut String, b: u8)
    ensures
        final(s)@ == old(s)@ + hex2(b),
{
    push_char(s, hex_digit_char(b / 16));
    push_char(s, hex_digit_char(b % 16));
    assert(old(s)@ + hex2(b) =~= old(s)@.push(hex_digit(b as nat / 16)).push(
        hex_digit(b as nat % 16),
    ));
}

// ---------------------------------------------------------------------------
// Parsing unsigned integers
// ---------------------------------------------------------------------------

/// The value of a digit in the given radix (`char::to_digit`), if it is one.
pub open spec fn digit_value(c: char, radix: nat) -> Option<nat> {
    let v = c as u32;
    let d: int = if 48 <= v <= 57 {
        v - 48
    } else if 97 <= v <= 122 {
        v - 97 + 10
    } else if 65 <= v <= 90 {
        v - 65 + 10
    } else {
        36
    };
    if d < radix {
        Some(d as nat)
    } else {
        None
    }
}

/// Whether every character of `s` is a digit in the given radix.
pub open spec fn all_digits(s: Seq<char>, radix: nat) -> bool {
    forall|i: int| 0 <= i < s.len() ==> (#[trigger] digit_value(s[i], radix)) is Some
}

/// The number that the digits `s` denote in the given radix.
pub open spec fn digits_value(s: Seq<char>, radix: nat) -> nat
    decreases s.len(),
{
    if s.len() == 0 {
        0
    } else {
        digits_value(s.drop_last(), radix) * radix + digit_value(s.last(), radix).unwrap()
    }
}

/// The digits that `from_str_radix` reads: a leading `'+'` is dropped when
/// something follows it.
pub open spec fn unsigned_digits(s: Seq<char>) -> Seq<char> {
    if s.len() > 1 && s[0] == '+' {
        s.drop_first()
    } else {
        s
    }
}

/// The number that an unsigned `from_str_radix` reads from `s`, before the
/// check against the target type's range: `None` for an empty string, a lone
/// sign, or any character that is not a digit.
pub open spec fn parse_unsigned(s: Seq<char>, radix: nat) -> Option<nat> {
    let d = unsigned_digits(s);
    if d.len() == 0 || !all_digits(d, radix) {
        None
    } else {
        Some(digits_value(d, radix))
    }
}

/// `str::parse::<u64>()` (radix 10) and `u64::from_str_radix`: the parsed
/// number when it fits in a `u64`.
pub open spec fn parse_u64_radix(s: Seq<char>, radix: nat) -> Option<u64> {
    match parse_unsigned(s, radix) {
        Some(v) => if v <= u64::MAX {
            Some(v as u64)
        } else {
            None
        },
        None => None,
    }
}

/// `u8::from_str_radix`: the parsed number when it fits in a `u8`.
pub open spec fn parse_u8_radix(s: Seq<char>, radix: nat) -> Option<u8> {
    match parse_unsigned(s, radix) {
        Some(v) => if v <= u8::MAX {
            Some(v as u8)
        } else {
            None
        },
        None => None,
    }
}

proof fn lemma_digits_value_prefix(s: Seq<char>, k: int, radix: nat)
    requires
        0 <= k <= s.len(),
        radix >= 1,
    ensures
        digits_value(s, radix) >= digits_value(s.take(k), radix),
    decreases s.len(),
{
    if k < s.len() {
        lemma_digits_value_prefix(s.drop_last(), k, radix);
        assert(s.drop_last().take(k) =~= s.take(k));
        let a = digits_value(s.drop_last(), radix);
        assert(a * radix >= a) by (nonlinear_arith)
            requires
                radix >= 1,
        ;
    } else {
        assert(s.take(k) =~= s);
    }
}

proof fn lemma_digits_value_step(s: Seq<char>, i: int, radix: nat)
    requires
        0 <= i < s.len(),
    ensures
        digits_value(s.take(i + 1), radix) == digits_value(s.take(i), radix) * radix
            + digit_value(s[i], radix).unwrap(),
{
    assert(s.take(i + 1).drop_last() =~= s.take(i));
}

fn char_digit_value(c: char, radix: u32) -> (r: Option<u32>)
    requires
        2 <= radix <= 36,
    ensures
        r matches Some(d) ==> digit_value(c, radix as nat) == Some(d as nat),
        r is None ==> digit_value(c, radix as nat) is None,
{
    let v = c as u32;
    let d: u32 = if 48 <= v && v <= 57 {
        v - 48
    } else if 97 <= v && v <= 122 {
        v - 97 + 10
    } else if 65 <= v && v <= 90 {
        v - 65 + 10
    } else {
        36
    };
    if d < radix {
        Some(d)
    } else {
        None
    }
}

/// Reads `v[start..end]` as an unsigned number in the given radix, as
/// `u64::from_str_radix` does.
pub fn parse_u64_range(v: &Vec<char>, start: usize, end: usize, radix: u32) -> (r: Option<u64>)
    requires
        start <= end <= v@.len(),
        2 <= radix <= 36,
    ensures
        r == parse_u64_radix(v@.subrange(start as int, end as int), radix as nat),
{
    let ghost s = v@.subrange(start as int, end as int);
    let mut i = start;
    if end - start > 1 && v[start] == '+' {
        i = start + 1;
        assert(unsigned_digits(s) =~= v@.subrange(start + 1, end as int));
    } else {
        assert(unsigned_digits(s) =~= v@.subrange(start as int, end as int));
    }
    let ghost d = unsigned_digits(s);
    let first = i;
    if i == end {
        return None;
    }
    let mut acc: u64 = 0;
    assert(d.take(0) =~= Seq::<char>::empty());
    while i < end
        invariant
            start <= first <= i <= end <= v@.len(),
            2 <= radix <= 36,
            d == v@.subrange(first as int, end as int),
            d.len() > 0,
            all_digits(d.take(i - first), radix as nat),
            acc == digits_value(d.take(i - first), radix as nat),
            s == v@.subrange(start as int, end as int),
            d == unsigned_digits(s),
        decreases end - i,
    {
        let k = i - first;
        assert(d[k as int] == v@[i as int]);
        match char_digit_value(v[i], radix) {
            None => {
                assert(!all_digits(d, radix as nat)) by {
                    assert(digit_value(d[k as int], radix as nat) is None);
                }
                return None;
            },
            Some(dv) => {
                proof {
                    lemma_digits_value_step(d, k as int, radix as nat);
                }
                match acc.checked_mul(radix as u64) {
                    None => {
                        proof {
                            lemma_digits_value_prefix(d, k + 1, radix as nat);
                        }
                        return None;
                    },
                    Some(m) => match m.checked_add(dv as u64) {
                        None => {
                            proof {
                                lemma_digits_value_prefix(d, k + 1, radix as nat);
                            }
                            return None;
                        },
                        Some(next) => {
                            acc = next;
                            assert(all_digits(d.take(k + 1), radix as nat)) by {
                                assert forall|j: int| 0 <= j < k + 1 implies (#[trigger] digit_value(
                                    d.take(k + 1)[j],
                                    radix as nat,
                                )) is Some by {
                                    if j < k {
                                        assert(d.take(k + 1)[j] == d.take(k as int)[j]);
                                    }
                                }
                            }
                        },
                    },
                }
            },
        }
        i = i + 1;
    }
    assert(d.take(end - first) =~= d);
    Some(acc)
}

} // verus!
