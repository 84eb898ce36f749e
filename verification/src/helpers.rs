//! File-name cleaning, `[hh:]mm:ss` durations and `#rrggbb` colours.
use vstd::prelude::*;

use crate::text::{
    all_digits, chars_of, decimal, decimal_digit, digit_value, digits_value, hex2, hex_digit,
    parse_unsigned, parse_u64_radix, parse_u64_range, parse_u8_radix, push_char, push_decimal_pad2,
    push_hex2, unsigned_digits, zero_pad2,
};
use crate::theme::Color;

verus! {

// ---------------------------------------------------------------------------
// File names
// ---------------------------------------------------------------------------

/// Whether a character may not appear in a file name: `< > : " / \ | ? *`.
pub open spec fn is_invalid_filename_char(c: char) -> bool {
    c == '<' || c == '>' || c == ':' || c == '"' || c == '/' || c == '\\' || c == '|' || c == '?'
        || c == '*'
}

/// The character a file name holds in place of `c`.
pub open spec fn filename_char(c: char) -> char {
    if is_invalid_filename_char(c) {
        '_'
    } else {
        c
    }
}

/// `s` with every character that may not appear in a file name replaced by `'_'`.
pub open spec fn valid_filename(s: Seq<char>) -> Seq<char> {
    s.map_values(|c: char| filename_char(c))
}

/// Whether no character of `s` is one that may not appear in a file name.
pub open spec fn is_valid_filename(s: Seq<char>) -> bool {
    forall|i: int| 0 <= i < s.len() ==> !is_invalid_filename_char(#[trigger] s[i])
}

fn filename_char_exec(c: char) -> (r: char)
    ensures
        r == filename_char(c),
{
    if c == '<' || c == '>' || c == ':' || c == '"' || c == '/' || c == '\\' || c == '|' || c
        == '?' || c == '*' {
        '_'
    } else {
        c
    }
}

/// Replaces every character that may not appear in a file name by `'_'`.
pub fn make_filename_valid(filename: String) -> (r: String)
    ensures
        r@ == valid_filename(filename@),
{
    let v = chars_of(filename.as_str());
    let mut out = String::new();
    let mut i: usize = 0;
    while i < v.len()
        invariant
            i <= v@.len(),
            v@ == filename@,
            out@ == valid_filename(v@.take(i as int)),
        decreases v@.len() - i,
    {
        let c = filename_char_exec(v[i]);
        push_char(&mut out, c);
        assert(valid_filename(v@.take(i + 1)) =~= valid_filename(v@.take(i as int)).push(c));
        i = i + 1;
    }
    assert(v@.take(v@.len() as int) =~= v@);
    out
}

/// A cleaned file name has no forbidden character, has as many characters as
/// the name it came from, and cleaning it again changes nothing.
pub proof fn law_valid_filename(s: Seq<char>)
    ensures
        is_valid_filename(valid_filename(s)),
        valid_filename(s).len() == s.len(),
        valid_filename(valid_filename(s)) == valid_filename(s),
        is_valid_filename(s) ==> valid_filename(s) == s,
{
    assert(valid_filename(valid_filename(s)) =~= valid_filename(s));
    if is_valid_filename(s) {
        assert(valid_filename(s) =~= s);
    }
}

// ---------------------------------------------------------------------------
// Durations
// ---------------------------------------------------------------------------

/// `t` seconds as `hh:mm:ss`, or `mm:ss` under an hour; every field has at
/// least two digits.
pub open spec fn spec_format_seconds(t: nat) -> Seq<char> {
    let h = t / 3600;
    let m = t / 60 % 60;
    let s = t % 60;
    if h > 0 {
        zero_pad2(decimal(h)) + seq![':'] + zero_pad2(decimal(m)) + seq![':'] + zero_pad2(
            decimal(s),
        )
    } else {
        zero_pad2(decimal(m)) + seq![':'] + zero_pad2(decimal(s))
    }
}

/// Formats a number of seconds as `hh:mm:ss`, or `mm:ss` under an hour.
pub fn format_seconds(seconds: u64) -> (r: String)
    ensures
        r@ == spec_format_seconds(seconds as nat),
{
    let hours = seconds / 3600;
    let minutes = seconds / 60 % 60;
    let secs = seconds % 60;
    let mut out = String::new();
    if hours > 0 {
        push_decimal_pad2(&mut out, hours);
        push_char(&mut out, ':');
    }
    push_decimal_pad2(&mut out, minutes);
    push_char(&mut out, ':');
    push_decimal_pad2(&mut out, secs);
    proof {
        let hh = zero_pad2(decimal(hours as nat));
        let mm = zero_pad2(decimal(minutes as nat));
        let ss = zero_pad2(decimal(secs as nat));
        if hours > 0 {
            assert(out@ =~= hh + seq![':'] + mm + seq![':'] + ss);
        } else {
            assert(out@ =~= mm + seq![':'] + ss);
        }
    }
    out
}

/// Whether `c` separates the fields of a formatted duration.
pub open spec fn is_time_separator(c: char) -> bool {
    c == ':' || c == '.'
}

/// The pieces of `s` between its separators (`str::split([':', '.'])`):
/// one more piece than there are separators.
pub open spec fn split_time(s: Seq<char>) -> Seq<Seq<char>>
    decreases s.len(),
{
    if s.len() == 0 {
        seq![Seq::<char>::empty()]
    } else {
        let p = split_time(s.drop_last());
        if is_time_separator(s.last()) {
            p.push(Seq::<char>::empty())
        } else {
            p.update(p.len() - 1, p.last().push(s.last()))
        }
    }
}

/// The number of seconds in `hh:mm:ss` (also `hh.mm.ss`; pieces after the third
/// are ignored), when the three fields parse and the total fits in a `u64`.
pub open spec fn spec_parse_formatted_seconds(s: Seq<char>) -> Option<u64> {
    let p = split_time(s);
    if p.len() < 3 {
        None
    } else {
        match (parse_u64_radix(p[0], 10), parse_u64_radix(p[1], 10), parse_u64_radix(p[2], 10)) {
            (Some(h), Some(m), Some(sec)) => {
                let t = h * 3600 + m * 60 + sec;
                if t <= u64::MAX {
                    Some(t as u64)
                } else {
                    None
                }
            },
            _ => None,
        }
    }
}

proof fn lemma_split_time_nonempty(s: Seq<char>)
    ensures
        split_time(s).len() >= 1,
    decreases s.len(),
{
    if s.len() > 0 {
        lemma_split_time_nonempty(s.drop_last());
    }
}

/// Where the piece `k` of a split starts, given the separator positions.
pub open spec fn piece_start(seps: Seq<usize>, k: int) -> int {
    if k == 0 {
        0
    } else {
        seps[k - 1] + 1
    }
}

/// The separator positions `seps` of `s` describe `split_time(s)`.
pub open spec fn splits_at(s: Seq<char>, seps: Seq<usize>) -> bool {
    let p = split_time(s);
    &&& p.len() == seps.len() + 1
    &&& forall|k: int| 0 <= k < seps.len() ==> piece_start(seps, k) <= #[trigger] seps[k] < s.len()
    &&& forall|k: int|
        0 <= k < seps.len() ==> #[trigger] p[k] == s.subrange(piece_start(seps, k), seps[k] as int)
    &&& piece_start(seps, seps.len() as int) <= s.len()
    &&& p[seps.len() as int] == s.subrange(piece_start(seps, seps.len() as int), s.len() as int)
}

/// The positions of the separators in `v`.
fn separator_positions(v: &Vec<char>) -> (seps: Vec<usize>)
    ensures
        splits_at(v@, seps@),
{
    let mut seps: Vec<usize> = Vec::new();
    let mut i: usize = 0;
    assert(v@.take(0) =~= Seq::<char>::empty());
    assert(split_time(v@.take(0)) =~= seq![Seq::<char>::empty()]);
    assert(v@.take(0).subrange(0, 0) =~= Seq::<char>::empty());
    while i < v.len()
        invariant
            i <= v@.len(),
            splits_at(v@.take(i as int), seps@),
        decreases v@.len() - i,
    {
        let c = v[i];
        let ghost old_seps = seps@;
        let ghost s = v@.take(i as int);
        let ghost s1 = v@.take(i + 1);
        let ghost p = split_time(s);
        assert(s1.drop_last() =~= s);
        assert(s1.last() == c);
        if c == ':' || c == '.' {
            seps.push(i);
            proof {
                let p1 = split_time(s1);
                assert(p1 == p.push(Seq::<char>::empty()));
                assert forall|k: int| 0 <= k < seps@.len() implies piece_start(seps@, k)
                    <= #[trigger] seps@[k] < s1.len() by {
                    if k < old_seps.len() {
                        assert(seps@[k] == old_seps[k]);
                        assert(piece_start(seps@, k) == piece_start(old_seps, k));
                    }
                }
                assert forall|k: int| 0 <= k < seps@.len() implies #[trigger] p1[k]
                    == s1.subrange(piece_start(seps@, k), seps@[k] as int) by {
                    assert(piece_start(seps@, k) == piece_start(old_seps, k));
                    if k < old_seps.len() {
                        assert(seps@[k] == old_seps[k]);
                        assert(s1.subrange(piece_start(seps@, k), seps@[k] as int) =~= s.subrange(
                            piece_start(old_seps, k),
                            old_seps[k] as int,
                        ));
                    } else {
                        assert(s1.subrange(piece_start(seps@, k), seps@[k] as int) =~= s.subrange(
                            piece_start(old_seps, k),
                            s.len() as int,
                        ));
                    }
                }
                assert(s1.subrange(piece_start(seps@, seps@.len() as int), s1.len() as int)
                    =~= Seq::<char>::empty());
            }
        } else {
            proof {
                let p1 = split_time(s1);
                let n = old_seps.len() as int;
                assert(p1 == p.update(n, p[n].push(c)));
                assert forall|k: int| 0 <= k < seps@.len() implies #[trigger] p1[k]
                    == s1.subrange(piece_start(seps@, k), seps@[k] as int) by {
                    assert(s1.subrange(piece_start(seps@, k), seps@[k] as int) =~= s.subrange(
                        piece_start(seps@, k),
                        seps@[k] as int,
                    ));
                }
                assert(s1.subrange(piece_start(seps@, n), s1.len() as int) =~= s.subrange(
                    piece_start(seps@, n),
                    s.len() as int,
                ).push(c));
            }
        }
        i = i + 1;
    }
    assert(v@.take(v@.len() as int) =~= v@);
    seps
}

/// Reads a duration written as `hh:mm:ss` (the separators may also be `.`)
/// into a number of seconds.
pub fn parse_formatted_seconds(seconds: String) -> (r: Option<u64>)
    ensures
        r == spec_parse_formatted_seconds(seconds@),
{
    let v = chars_of(seconds.as_str());
    let seps = separator_positions(&v);
    let ghost p = split_time(v@);
    if seps.len() < 2 {
        return None;
    }
    let end2 = if seps.len() > 2 {
        seps[2]
    } else {
        v.len()
    };
    assert(p[2] == v@.subrange(seps@[1] + 1, end2 as int));
    let hours = match parse_u64_range(&v, 0, seps[0], 10) {
        Some(h) => h,
        None => return None,
    };
    let minutes = match parse_u64_range(&v, seps[0] + 1, seps[1], 10) {
        Some(m) => m,
        None => return None,
    };
    let secs = match parse_u64_range(&v, seps[1] + 1, end2, 10) {
        Some(s) => s,
        None => return None,
    };
    let h = match hours.checked_mul(3600) {
        Some(h) => h,
        None => return None,
    };
    let m = match minutes.checked_mul(60) {
        Some(m) => m,
        None => return None,
    };
    let hm = match h.checked_add(m) {
        Some(hm) => hm,
        None => return None,
    };
    hm.checked_add(secs)
}

// ---------------------------------------------------------------------------
// Colours
// ---------------------------------------------------------------------------

/// `#rrggbb` in lower-case hexadecimal.
pub open spec fn spec_format_color_hex(c: Color) -> Seq<char> {
    seq!['#'] + hex2(c.r) + hex2(c.g) + hex2(c.b)
}

/// Formats a colour as `#rrggbb`.
pub fn format_color_hex(color: Color) -> (r: String)
    ensures
        r@ == spec_format_color_hex(color),
{
    let mut out = String::new();
    push_char(&mut out, '#');
    push_hex2(&mut out, color.r());
    push_hex2(&mut out, color.g());
    push_hex2(&mut out, color.b());
    assert(out@ =~= spec_format_color_hex(color));
    out
}

/// The smaller of two integers.
pub open spec fn min_int(a: int, b: int) -> int {
    if a < b {
        a
    } else {
        b
    }
}

/// The colour in `#rrggbb` (the `#` is optional): the first three pairs of
/// characters after it, each read as a hexadecimal byte; what follows them is
/// ignored.
pub open spec fn spec_parse_color_hex(s: Seq<char>) -> Option<Color> {
    let t = if s.len() > 0 && s[0] == '#' {
        s.drop_first()
    } else {
        s
    };
    let n = t.len() as int;
    let r = parse_u8_radix(t.subrange(0, min_int(2, n)), 16);
    let g = parse_u8_radix(t.subrange(min_int(2, n), min_int(4, n)), 16);
    let b = parse_u8_radix(t.subrange(min_int(4, n), min_int(6, n)), 16);
    match (r, g, b) {
        (Some(r), Some(g), Some(b)) => Some(Color { r, g, b }),
        _ => None,
    }
}

fn parse_u8_hex_range(v: &Vec<char>, start: usize, end: usize) -> (r: Option<u8>)
    requires
        start <= end <= v@.len(),
    ensures
        r == parse_u8_radix(v@.subrange(start as int, end as int), 16),
{
    match parse_u64_range(v, start, end, 16) {
        Some(x) => if x <= 255 {
            Some(x as u8)
        } else {
            None
        },
        None => None,
    }
}

/// Reads a colour written as `#rrggbb` (or `rrggbb`).
pub fn parse_color_hex(hex: &String) -> (r: Option<Color>)
    ensures
        r == spec_parse_color_hex(hex@),
{
    let v = chars_of(hex.as_str());
    let start: usize = if v.len() > 0 && v[0] == '#' {
        1
    } else {
        0
    };
    let ghost t = if v@.len() > 0 && v@[0] == '#' {
        v@.drop_first()
    } else {
        v@
    };
    assert(t =~= v@.subrange(start as int, v@.len() as int));
    let n = v.len() - start;
    let a = if n < 2 {
        n
    } else {
        2
    };
    let b = if n < 4 {
        n
    } else {
        4
    };
    let c = if n < 6 {
        n
    } else {
        6
    };
    assert(t.subrange(0, a as int) =~= v@.subrange(start as int, start + a));
    assert(t.subrange(a as int, b as int) =~= v@.subrange(start + a, start + b));
    assert(t.subrange(b as int, c as int) =~= v@.subrange(start + b, start + c));
    let r = parse_u8_hex_range(&v, start, start + a);
    let g = parse_u8_hex_range(&v, start + a, start + b);
    let bl = parse_u8_hex_range(&v, start + b, start + c);
    match (r, g, bl) {
        (Some(r), Some(g), Some(b)) => Some(Color::rgb(r, g, b)),
        _ => None,
    }
}

// ---------------------------------------------------------------------------
// Round trips
// ---------------------------------------------------------------------------

proof fn lemma_decimal_digit_value(d: nat)
    requires
        d < 10,
    ensures
        digit_value(decimal_digit(d), 10) == Some(d),
        decimal_digit(d) != '+',
        !is_time_separator(decimal_digit(d)),
{
    assert(decimal_digit(d) as u32 == 48 + d);
}

proof fn lemma_hex_digit_value(d: nat)
    requires
        d < 16,
    ensures
        digit_value(hex_digit(d), 16) == Some(d),
        hex_digit(d) != '+',
{
    if d < 10 {
        assert(hex_digit(d) as u32 == 48 + d);
    } else {
        assert(hex_digit(d) as u32 == 87 + d);
    }
}

/// The decimal digits of `n` are digits, denote `n`, and hold no separator.
proof fn lemma_decimal_reads_back(n: nat)
    ensures
        all_digits(decimal(n), 10),
        digits_value(decimal(n), 10) == n,
        decimal(n).len() >= 1,
        decimal(n)[0] != '+',
        forall|i: int| 0 <= i < decimal(n).len() ==> !is_time_separator(#[trigger] decimal(n)[i]),
    decreases n,
{
    if n < 10 {
        lemma_decimal_digit_value(n);
        let s = decimal(n);
        assert(s.drop_last() =~= Seq::<char>::empty());
        assert(digits_value(Seq::<char>::empty(), 10) == 0);
        assert(s.last() == decimal_digit(n));
        assert(digits_value(s, 10) == digits_value(s.drop_last(), 10) * 10 + digit_value(
            s.last(),
            10,
        ).unwrap());
    } else {
        lemma_decimal_reads_back(n / 10);
        lemma_decimal_digit_value(n % 10);
        let s = decimal(n);
        assert(s.drop_last() =~= decimal(n / 10));
        assert forall|i: int| 0 <= i < s.len() implies (#[trigger] digit_value(s[i], 10)) is Some by {
            if i < s.len() - 1 {
                assert(s[i] == decimal(n / 10)[i]);
            }
        }
        assert forall|i: int| 0 <= i < s.len() implies !is_time_separator(#[trigger] s[i]) by {
            if i < s.len() - 1 {
                assert(s[i] == decimal(n / 10)[i]);
            }
        }
        assert(s[0] == decimal(n / 10)[0]);
        assert(s.last() == decimal_digit(n % 10));
        assert(digits_value(s, 10) == digits_value(s.drop_last(), 10) * 10 + digit_value(
            s.last(),
            10,
        ).unwrap());
        assert((n / 10) * 10 + n % 10 == n) by (nonlinear_arith);
    }
}

/// A leading zero does not change the number that digits denote.
proof fn lemma_leading_zero(s: Seq<char>)
    ensures
        digits_value(seq!['0'] + s, 10) == digits_value(s, 10),
    decreases s.len(),
{
    let z = seq!['0'] + s;
    assert(digits_value(z, 10) == digits_value(z.drop_last(), 10) * 10 + digit_value(
        z.last(),
        10,
    ).unwrap());
    if s.len() == 0 {
        assert(z.drop_last() =~= Seq::<char>::empty());
        assert(digits_value(Seq::<char>::empty(), 10) == 0);
        assert('0' as u32 == 48);
        assert(z.last() == '0');
    } else {
        lemma_leading_zero(s.drop_last());
        assert(z.drop_last() =~= seq!['0'] + s.drop_last());
        assert(z.last() == s.last());
        assert(digits_value(s, 10) == digits_value(s.drop_last(), 10) * 10 + digit_value(
            s.last(),
            10,
        ).unwrap());
    }
}

/// A zero-padded decimal field reads back as its number.
proof fn lemma_pad2_reads_back(n: nat)
    ensures
        parse_u64_radix(zero_pad2(decimal(n)), 10) == (if n <= u64::MAX {
            Some(n as u64)
        } else {
            None::<u64>
        }),
        forall|i: int|
            0 <= i < zero_pad2(decimal(n)).len() ==> !is_time_separator(
                #[trigger] zero_pad2(decimal(n))[i],
            ),
{
    lemma_decimal_reads_back(n);
    let d = decimal(n);
    let p = zero_pad2(d);
    if d.len() < 2 {
        assert(p =~= seq!['0'] + d);
        lemma_leading_zero(d);
        assert('0' as u32 == 48);
        assert forall|i: int| 0 <= i < p.len() implies (#[trigger] digit_value(p[i], 10)) is Some by {
            if i > 0 {
                assert(p[i] == d[i - 1]);
            }
        }
        assert forall|i: int| 0 <= i < p.len() implies !is_time_separator(#[trigger] p[i]) by {
            if i > 0 {
                assert(p[i] == d[i - 1]);
            }
        }
        assert(unsigned_digits(p) == p);
    } else {
        assert(unsigned_digits(p) == p);
    }
}

/// Pieces without separators: splitting `x`, a separator and `y` gives the
/// pieces of `x` followed by `y`.
proof fn lemma_split_append(x: Seq<char>, y: Seq<char>)
    requires
        forall|i: int| 0 <= i < y.len() ==> !is_time_separator(#[trigger] y[i]),
    ensures
        split_time(x + seq![':'] + y) == split_time(x).push(y),
    decreases y.len(),
{
    let z = x + seq![':'] + y;
    if y.len() == 0 {
        assert(z.drop_last() =~= x);
        assert(z.last() == ':');
        assert(y =~= Seq::<char>::empty());
    } else {
        let y0 = y.drop_last();
        lemma_split_append(x, y0);
        assert(z.drop_last() =~= x + seq![':'] + y0);
        assert(z.last() == y.last());
        let p = split_time(x + seq![':'] + y0);
        assert(p == split_time(x).push(y0));
        assert(!is_time_separator(y[y.len() - 1]));
        assert(y0.push(y.last()) =~= y);
        assert(split_time(z) == p.update(p.len() - 1, p.last().push(z.last())));
        assert(p.update(p.len() - 1, p.last().push(y.last())) =~= split_time(x).push(y));
    }
}

proof fn lemma_split_single(y: Seq<char>)
    requires
        forall|i: int| 0 <= i < y.len() ==> !is_time_separator(#[trigger] y[i]),
    ensures
        split_time(y) == seq![y],
    decreases y.len(),
{
    if y.len() == 0 {
        assert(y =~= Seq::<char>::empty());
    } else {
        lemma_split_single(y.drop_last());
        assert(!is_time_separator(y[y.len() - 1]));
        assert(y.drop_last().push(y.last()) =~= y);
        assert(seq![y.drop_last()].update(0, y.drop_last().push(y.last())) =~= seq![y]);
    }
}

proof fn lemma_pad2_no_separator(n: nat)
    ensures
        forall|i: int|
            0 <= i < zero_pad2(decimal(n)).len() ==> !is_time_separator(
                #[trigger] zero_pad2(decimal(n))[i],
            ),
{
    lemma_pad2_reads_back(n);
}

/// The three fields of a duration written with hours.
proof fn lemma_format_fields(t: nat)
    requires
        t >= 3600,
    ensures
        split_time(spec_format_seconds(t)) == seq![
            zero_pad2(decimal(t / 3600)),
            zero_pad2(decimal(t / 60 % 60)),
            zero_pad2(decimal(t % 60)),
        ],
{
    let hh = zero_pad2(decimal(t / 3600));
    let mm = zero_pad2(decimal(t / 60 % 60));
    let ss = zero_pad2(decimal(t % 60));
    lemma_pad2_no_separator(t / 3600);
    lemma_pad2_no_separator(t / 60 % 60);
    lemma_pad2_no_separator(t % 60);
    lemma_split_single(hh);
    lemma_split_append(hh, mm);
    lemma_split_append(hh + seq![':'] + mm, ss);
    assert(spec_format_seconds(t) == hh + seq![':'] + mm + seq![':'] + ss);
    assert(split_time(hh).push(mm).push(ss) =~= seq![hh, mm, ss]);
}

proof fn lemma_hours_minutes_seconds(t: nat)
    ensures
        (t / 3600) * 3600 + (t / 60 % 60) * 60 + t % 60 == t,
{
    assert((t / 3600) * 3600 + (t / 60 % 60) * 60 + t % 60 == t) by (nonlinear_arith);
}

/// A duration of at least an hour reads back from its `hh:mm:ss` form.
/// (Under an hour the form is `mm:ss`, which has only two fields and does not
/// read back.)
pub proof fn law_format_parse_seconds(t: u64)
    requires
        t >= 3600,
    ensures
        spec_parse_formatted_seconds(spec_format_seconds(t as nat)) == Some(t),
{
    let n = t as nat;
    lemma_format_fields(n);
    lemma_pad2_reads_back(n / 3600);
    lemma_pad2_reads_back(n / 60 % 60);
    lemma_pad2_reads_back(n % 60);
    lemma_hours_minutes_seconds(n);
}

proof fn lemma_hex2_reads_back(b: u8)
    ensures
        parse_u8_radix(hex2(b), 16) == Some(b),
{
    let x = hex2(b);
    lemma_hex_digit_value(b as nat / 16);
    lemma_hex_digit_value(b as nat % 16);
    assert(unsigned_digits(x) == x);
    assert(x.drop_last() =~= seq![hex_digit(b as nat / 16)]);
    assert(x.drop_last().drop_last() =~= Seq::<char>::empty());
    assert(all_digits(x, 16));
    assert(digits_value(Seq::<char>::empty(), 16) == 0);
    assert(digits_value(x.drop_last(), 16) == digits_value(x.drop_last().drop_last(), 16) * 16
        + digit_value(x.drop_last().last(), 16).unwrap());
    assert(digits_value(x, 16) == digits_value(x.drop_last(), 16) * 16 + digit_value(
        x.last(),
        16,
    ).unwrap());
    assert(digits_value(x, 16) == (b as nat / 16) * 16 + b as nat % 16);
}

proof fn lemma_color_text_parts(c: Color)
    ensures
        ({
            let s = spec_format_color_hex(c);
            let t = s.drop_first();
            &&& s.len() > 0
            &&& s[0] == '#'
            &&& t.len() == 6
            &&& t.subrange(0, 2) == hex2(c.r)
            &&& t.subrange(2, 4) == hex2(c.g)
            &&& t.subrange(4, 6) == hex2(c.b)
        }),
{
    let s = spec_format_color_hex(c);
    let t = s.drop_first();
    assert(t =~= hex2(c.r) + hex2(c.g) + hex2(c.b));
    assert(t.subrange(0, 2) =~= hex2(c.r));
    assert(t.subrange(2, 4) =~= hex2(c.g));
    assert(t.subrange(4, 6) =~= hex2(c.b));
}

/// A colour reads back from its `#rrggbb` form.
pub proof fn law_format_parse_color(c: Color)
    ensures
        spec_parse_color_hex(spec_format_color_hex(c)) == Some(c),
{
    lemma_color_text_parts(c);
    lemma_hex2_reads_back(c.r);
    lemma_hex2_reads_back(c.g);
    lemma_hex2_reads_back(c.b);
}

} // verus!
