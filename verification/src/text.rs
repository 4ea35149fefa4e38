//! Text helpers: character access, equality, search, decimal numbers and paths.
use vstd::prelude::*;

verus! {

broadcast use vstd::string::group_string_axioms;

// ---------------------------------------------------------------------------
// Characters, equality and search
// ---------------------------------------------------------------------------

/// `needle` occurs in `hay` as a contiguous run of characters.
pub open spec fn occurs_in(needle: Seq<char>, hay: Seq<char>) -> bool {
    exists|i: int| 0 <= i <= hay.len() - needle.len() && #[trigger] hay.subrange(i, i + needle.len()) == needle
}

/// Appends one character to a `String` (std's `String::push`).
#[verifier::external_body]
pub(crate) fn push_char(s: &mut String, c: char)
    ensures
        final(s)@ == old(s)@.push(c),
{
    s.push(c)
}

/// The characters of `s`, in order.
pub fn chars_of(s: &str) -> (res: Vec<char>)
    ensures
        res@ == s@,
{
    let mut out: Vec<char> = Vec::new();
    for c in it: s.chars()
        invariant
            out@ == it.seq().take(it.index() as int),
    {
        out.push(c);
    }
    out
}

/// Whether two slices of characters hold the same characters.
pub fn chars_eq(a: &[char], b: &[char]) -> (res: bool)
    ensures
        res == (a@ == b@),
{
    if a.len() != b.len() {
        return false;
    }
    let mut i: usize = 0;
    while i < a.len()
        invariant
            a@.len() == b@.len(),
            i <= a@.len(),
            forall|j: int| 0 <= j < i ==> a@[j] == b@[j],
        decreases a@.len() - i,
    {
        if a[i] != b[i] {
            return false;
        }
        i = i + 1;
    }
    assert(a@ =~= b@);
    true
}

/// Whether two strings hold the same characters (std's `==` on `str`).
pub fn str_eq(a: &str, b: &str) -> (res: bool)
    ensures
        res == (a@ == b@),
{
    let ca = chars_of(a);
    let cb = chars_of(b);
    chars_eq(ca.as_slice(), cb.as_slice())
}

/// Whether `needle` matches `hay` at position `at`.
fn matches_at(hay: &[char], needle: &[char], at: usize) -> (res: bool)
    requires
        at + needle@.len() <= hay@.len(),
    ensures
        res == (hay@.subrange(at as int, at + needle@.len()) == needle@),
{
    let hay_len = hay.len();
    let mut j: usize = 0;
    while j < needle.len()
        invariant
            hay_len == hay@.len(),
            at + needle@.len() <= hay@.len(),
            j <= needle@.len(),
            forall|k: int| 0 <= k < j ==> hay@[at + k] == needle@[k],
        decreases needle@.len() - j,
    {
        if hay[at + j] != needle[j] {
            assert(hay@.subrange(at as int, at + needle@.len())[j as int] != needle@[j as int]);
            return false;
        }
        j = j + 1;
    }
    assert(hay@.subrange(at as int, at + needle@.len()) =~= needle@);
    true
}

/// Whether `needle` occurs in `hay` (std's `str::contains` with a string pattern).
pub fn str_contains(hay: &str, needle: &str) -> (res: bool)
    ensures
        res == occurs_in(needle@, hay@),
{
    let h = chars_of(hay);
    let n = chars_of(needle);
    if n.len() > h.len() {
        return false;
    }
    if n.len() == 0 {
        assert(hay@.subrange(0, 0int + needle@.len()) =~= needle@);
        return true;
    }
    let h_len = h.len();
    let last = h_len - n.len();
    let mut i: usize = 0;
    while i <= last
        invariant
            h_len == h@.len(),
            h@ == hay@,
            n@ == needle@,
            last == h@.len() - n@.len(),
            n@.len() > 0,
            i <= last + 1,
            forall|k: int| 0 <= k < i ==> #[trigger] h@.subrange(k, k + n@.len()) != n@,
        decreases last + 1 - i,
    {
        if matches_at(h.as_slice(), n.as_slice(), i) {
            return true;
        }
        i = i + 1;
    }
    false
}

// ---------------------------------------------------------------------------
// Decimal numbers
// ---------------------------------------------------------------------------

/// The character of the decimal digit `d`.
pub open spec fn digit_char(d: nat) -> char {
    if d == 0 { '0' }
    else if d == 1 { '1' }
    else if d == 2 { '2' }
    else if d == 3 { '3' }
    else if d == 4 { '4' }
    else if d == 5 { '5' }
    else if d == 6 { '6' }
    else if d == 7 { '7' }
    else if d == 8 { '8' }
    else { '9' }
}

/// Whether `c` is an ASCII decimal digit.
pub open spec fn is_digit(c: char) -> bool {
    '0' <= c && c <= '9'
}

/// The value of the ASCII digit `c`.
pub open spec fn digit_value(c: char) -> int {
    (c as int) - ('0' as int)
}

/// The shortest decimal text of `n` (std's `Display` for unsigned integers).
pub open spec fn decimal_text(n: nat) -> Seq<char>
    decreases n,
{
    if n < 10 {
        seq![digit_char(n)]
    } else {
        decimal_text(n / 10).push(digit_char(n % 10))
    }
}

/// The decimal text of a signed `n` (std's `Display` for signed integers).
pub open spec fn signed_decimal_text(n: int) -> Seq<char> {
    if n < 0 {
        seq!['-'] + decimal_text((-n) as nat)
    } else {
        decimal_text(n as nat)
    }
}

/// The value of a sequence of decimal digits, most significant first.
pub open spec fn digits_value(d: Seq<char>) -> int
    decreases d.len(),
{
    if d.len() == 0 {
        0
    } else {
        digits_value(d.drop_last()) * 10 + digit_value(d.last())
    }
}

/// Whether `d` is a non-empty run of ASCII digits.
pub open spec fn all_digits(d: Seq<char>) -> bool {
    d.len() > 0 && forall|i: int| 0 <= i < d.len() ==> #[trigger] is_digit(d[i])
}

/// The integer that std's `FromStr` for integers reads from `s`, before the
/// range of the target type is checked: an optional `+` (or `-` where `signed`),
/// then one or more ASCII digits, and nothing else.
pub open spec fn integer_text_value(s: Seq<char>, signed: bool) -> Option<int> {
    if s.len() > 0 && s[0] == '+' {
        if all_digits(s.drop_first()) { Some(digits_value(s.drop_first())) } else { None }
    } else if s.len() > 0 && s[0] == '-' && signed {
        if all_digits(s.drop_first()) { Some(-digits_value(s.drop_first())) } else { None }
    } else {
        if all_digits(s) { Some(digits_value(s)) } else { None }
    }
}

/// What std's `FromStr` gives for an integer type whose values are `min..=max`.
pub open spec fn parsed_integer(s: Seq<char>, signed: bool, min: int, max: int) -> Option<int> {
    match integer_text_value(s, signed) {
        Some(v) => if min <= v <= max { Some(v) } else { None },
        None => None,
    }
}

proof fn lemma_digits_value_nonneg(d: Seq<char>)
    requires
        forall|i: int| 0 <= i < d.len() ==> #[trigger] is_digit(d[i]),
    ensures
        digits_value(d) >= 0,
    decreases d.len(),
{
    if d.len() > 0 {
        lemma_digits_value_nonneg(d.drop_last());
        assert(is_digit(d[d.len() - 1]));
    }
}

/// A prefix of a run of digits is worth no more than the whole run.
proof fn lemma_digits_prefix_le(d: Seq<char>, k: int)
    requires
        0 <= k <= d.len(),
        forall|i: int| 0 <= i < d.len() ==> #[trigger] is_digit(d[i]),
    ensures
        digits_value(d.take(k)) <= digits_value(d),
    decreases d.len(),
{
    if k < d.len() {
        let p = d.drop_last();
        assert forall|i: int| 0 <= i < p.len() implies #[trigger] is_digit(p[i]) by {
            assert(p[i] == d[i]);
        }
        lemma_digits_prefix_le(p, k);
        assert(p.take(k) =~= d.take(k));
        lemma_digits_value_nonneg(p);
        assert(is_digit(d[d.len() - 1]));
    } else {
        assert(d.take(k) =~= d);
    }
}

/// Reads a run of digits `d[start..]` as a number no greater than `limit`.
fn parse_magnitude(d: &[char], start: usize, limit: u64) -> (res: Option<u64>)
    requires
        start <= d@.len(),
    ensures
        ({
            let ds = d@.subrange(start as int, d@.len() as int);
            match res {
                Some(v) => all_digits(ds) && v == digits_value(ds) && v <= limit,
                None => !all_digits(ds) || digits_value(ds) > limit,
            }
        }),
{
    let ghost ds = d@.subrange(start as int, d@.len() as int);
    if start == d.len() {
        return None;
    }
    let mut acc: u64 = 0;
    let mut i: usize = start;
    while i < d.len()
        invariant
            start < d@.len(),
            start <= i <= d@.len(),
            ds == d@.subrange(start as int, d@.len() as int),
            forall|j: int| start <= j < i ==> #[trigger] is_digit(d@[j]),
            acc == digits_value(ds.take(i - start)),
            acc <= limit,
        decreases d@.len() - i,
    {
        let c = d[i];
        if !('0' <= c && c <= '9') {
            assert(!is_digit(ds[i - start]));
            return None;
        }
        let v: u64 = (c as u32 - '0' as u32) as u64;
        assert(ds.take(i - start + 1).drop_last() =~= ds.take(i - start));
        assert(ds.take(i - start + 1).last() == c);
        if acc > limit / 10 || (acc == limit / 10 && v > limit % 10) {
            // The prefix read so far already exceeds `limit`; so does the whole run.
            proof {
                assert(acc * 10 + v > limit) by (nonlinear_arith)
                    requires
                        acc > limit / 10 || (acc == limit / 10 && v > limit % 10),
                        v <= 9,
                ;
                if all_digits(ds) {
                    lemma_digits_prefix_le(ds, i - start + 1);
                }
            }
            return None;
        }
        proof {
            assert(acc * 10 + v <= limit) by (nonlinear_arith)
                requires
                    !(acc > limit / 10 || (acc == limit / 10 && v > limit % 10)),
                    v <= 9,
            ;
        }
        acc = acc * 10 + v;
        i = i + 1;
    }
    assert(ds.take(d@.len() - start) =~= ds);
    assert forall|j: int| 0 <= j < ds.len() implies #[trigger] is_digit(ds[j]) by {
        assert(ds[j] == d@[start + j]);
    }
    Some(acc)
}

/// Reads an optionally signed decimal integer; `max_pos` and `max_neg` bound the
/// magnitude of positive and negative results. The flag is `true` for a negative result.
fn parse_signed(s: &str, signed: bool, max_pos: u64, max_neg: u64) -> (res: Option<(bool, u64)>)
    ensures
        ({
            let v = integer_text_value(s@, signed);
            match res {
                Some((neg, m)) => v is Some && (if neg {
                    v->0 == -(m as int) && m <= max_neg && m > 0
                } else {
                    v->0 == m as int && m <= max_pos
                }),
                None => v is None || (v->0 >= 0 && v->0 > max_pos) || (v->0 < 0 && -v->0 > max_neg),
            }
        }),
{
    let d = chars_of(s);
    if d.len() > 0 && d[0] == '+' {
        assert(d@.subrange(1, d@.len() as int) =~= s@.drop_first());
        match parse_magnitude(d.as_slice(), 1, max_pos) {
            Some(m) => Some((false, m)),
            None => None,
        }
    } else if d.len() > 0 && d[0] == '-' && signed {
        assert(d@.subrange(1, d@.len() as int) =~= s@.drop_first());
        match parse_magnitude(d.as_slice(), 1, max_neg) {
            Some(m) => if m == 0 { Some((false, 0)) } else { Some((true, m)) },
            None => None,
        }
    } else {
        assert(d@.subrange(0, d@.len() as int) =~= s@);
        match parse_magnitude(d.as_slice(), 0, max_pos) {
            Some(m) => Some((false, m)),
            None => None,
        }
    }
}

/// Parses `s` as std's `str::parse::<i64>` does.
pub fn parse_i64(s: &str) -> (res: Option<i64>)
    ensures
        match res {
            Some(v) => parsed_integer(s@, true, i64::MIN as int, i64::MAX as int) == Some(v as int),
            None => parsed_integer(s@, true, i64::MIN as int, i64::MAX as int) is None,
        },
{
    match parse_signed(s, true, 9223372036854775807u64, 9223372036854775808u64) {
        Some((neg, m)) => {
            if neg {
                if m == 9223372036854775808u64 {
                    Some(i64::MIN)
                } else {
                    let p: i64 = m as i64;
                    Some(-p)
                }
            } else {
                Some(m as i64)
            }
        },
        None => None,
    }
}

/// Parses `s` as std's `str::parse::<i32>` does.
pub fn parse_i32(s: &str) -> (res: Option<i32>)
    ensures
        match res {
            Some(v) => parsed_integer(s@, true, i32::MIN as int, i32::MAX as int) == Some(v as int),
            None => parsed_integer(s@, true, i32::MIN as int, i32::MAX as int) is None,
        },
{
    match parse_signed(s, true, 2147483647u64, 2147483648u64) {
        Some((neg, m)) => {
            if neg {
                if m == 2147483648u64 {
                    Some(i32::MIN)
                } else {
                    let p: i32 = m as i32;
                    Some(-p)
                }
            } else {
                Some(m as i32)
            }
        },
        None => None,
    }
}

/// Parses `s` as std's `str::parse::<u64>` does.
pub fn parse_u64(s: &str) -> (res: Option<u64>)
    ensures
        match res {
            Some(v) => parsed_integer(s@, false, 0, u64::MAX as int) == Some(v as int),
            None => parsed_integer(s@, false, 0, u64::MAX as int) is None,
        },
{
    match parse_signed(s, false, u64::MAX, 0) {
        Some((_, m)) => Some(m),
        None => None,
    }
}

/// Parses `s` as std's `str::parse::<u8>` does.
pub fn parse_u8(s: &str) -> (res: Option<u8>)
    ensures
        match res {
            Some(v) => parsed_integer(s@, false, 0, u8::MAX as int) == Some(v as int),
            None => parsed_integer(s@, false, 0, u8::MAX as int) is None,
        },
{
    match parse_signed(s, false, 255u64, 0) {
        Some((_, m)) => Some(m as u8),
        None => None,
    }
}

/// Parses `s` as std's `str::parse::<u16>` does.
pub fn parse_u16(s: &str) -> (res: Option<u16>)
    ensures
        match res {
            Some(v) => parsed_integer(s@, false, 0, u16::MAX as int) == Some(v as int),
            None => parsed_integer(s@, false, 0, u16::MAX as int) is None,
        },
{
    match parse_signed(s, false, 65535u64, 0) {
        Some((_, m)) => Some(m as u16),
        None => None,
    }
}

/// Parses `s` as std's `str::parse::<u32>` does.
pub fn parse_u32(s: &str) -> (res: Option<u32>)
    ensures
        match res {
            Some(v) => parsed_integer(s@, false, 0, u32::MAX as int) == Some(v as int),
            None => parsed_integer(s@, false, 0, u32::MAX as int) is None,
        },
{
    match parse_signed(s, false, 4294967295u64, 0) {
        Some((_, m)) => Some(m as u32),
        None => None,
    }
}

/// Parses `s` as std's `str::parse::<usize>` does.
pub fn parse_usize(s: &str) -> (res: Option<usize>)
    ensures
        match res {
            Some(v) => parsed_integer(s@, false, 0, usize::MAX as int) == Some(v as int),
            None => parsed_integer(s@, false, 0, usize::MAX as int) is None,
        },
{
    match parse_signed(s, false, usize::MAX as u64, 0) {
        Some((_, m)) => Some(m as usize),
        None => None,
    }
}

/// Parses `s` as std's `str::parse::<i8>` does.
pub fn parse_i8(s: &str) -> (res: Option<i8>)
    ensures
        match res {
            Some(v) => parsed_integer(s@, true, i8::MIN as int, i8::MAX as int) == Some(v as int),
            None => parsed_integer(s@, true, i8::MIN as int, i8::MAX as int) is None,
        },
{
    match parse_signed(s, true, 127u64, 128u64) {
        Some((neg, m)) => {
            if neg {
                if m == 128u64 {
                    Some(i8::MIN)
                } else {
                    let p: i8 = m as i8;
                    Some(-p)
                }
            } else {
                Some(m as i8)
            }
        },
        None => None,
    }
}

/// Parses `s` as std's `str::parse::<i16>` does.
pub fn parse_i16(s: &str) -> (res: Option<i16>)
    ensures
        match res {
            Some(v) => parsed_integer(s@, true, i16::MIN as int, i16::MAX as int) == Some(v as int),
            None => parsed_integer(s@, true, i16::MIN as int, i16::MAX as int) is None,
        },
{
    match parse_signed(s, true, 32767u64, 32768u64) {
        Some((neg, m)) => {
            if neg {
                if m == 32768u64 {
                    Some(i16::MIN)
                } else {
                    let p: i16 = m as i16;
                    Some(-p)
                }
            } else {
                Some(m as i16)
            }
        },
        None => None,
    }
}

/// Parses `s` as std's `str::parse::<isize>` does.
pub fn parse_isize(s: &str) -> (res: Option<isize>)
    ensures
        match res {
            Some(v) => parsed_integer(s@, true, isize::MIN as int, isize::MAX as int) == Some(v as int),
            None => parsed_integer(s@, true, isize::MIN as int, isize::MAX as int) is None,
        },
{
    match parse_signed(s, true, isize::MAX as u64, (isize::MAX as u64) + 1) {
        Some((neg, m)) => {
            if neg {
                if m == (isize::MAX as u64) + 1 {
                    Some(isize::MIN)
                } else {
                    let p: isize = m as isize;
                    Some(-p)
                }
            } else {
                Some(m as isize)
            }
        },
        None => None,
    }
}

/// The character of the digit `d`.
fn digit_to_char(d: u64) -> (c: char)
    requires
        d < 10,
    ensures
        c == digit_char(d as nat),
        is_digit(c),
        digit_value(c) == d,
{
    if d == 0 { '0' }
    else if d == 1 { '1' }
    else if d == 2 { '2' }
    else if d == 3 { '3' }
    else if d == 4 { '4' }
    else if d == 5 { '5' }
    else if d == 6 { '6' }
    else if d == 7 { '7' }
    else if d == 8 { '8' }
    else { '9' }
}

/// Appends the decimal text of `n` to `out`.
pub fn push_decimal(out: &mut String, n: u64)
    ensures
        final(out)@ == old(out)@ + decimal_text(n as nat),
{
    let mut m: u64 = n;
    let mut rev: Vec<char> = Vec::new();
    let ghost mut tail: Seq<char> = Seq::empty();
    while m >= 10
        invariant
            decimal_text(n as nat) == decimal_text(m as nat) + tail,
            tail.len() == rev@.len(),
            forall|i: int| 0 <= i < tail.len() ==> tail[i] == #[trigger] rev@[rev@.len() - 1 - i],
        decreases m,
    {
        let c = digit_to_char(m % 10);
        let ghost old_rev = rev@;
        let ghost old_tail = tail;
        proof {
            let t2 = seq![c] + tail;
            assert(decimal_text(m as nat) == decimal_text((m / 10) as nat).push(c));
            assert(decimal_text((m / 10) as nat).push(c) + tail =~= decimal_text((m / 10) as nat) + t2);
            tail = t2;
        }
        rev.push(c);
        m = m / 10;
        proof {
            assert forall|i: int| 0 <= i < tail.len() implies tail[i] == #[trigger] rev@[rev@.len() - 1 - i] by {
                if i > 0 {
                    assert(tail[i] == old_tail[i - 1]);
                    assert(rev@[rev@.len() - 1 - i] == old_rev[old_rev.len() - 1 - (i - 1)]);
                }
            }
        }
    }
    let c = digit_to_char(m);
    let ghost old_rev = rev@;
    let ghost old_tail = tail;
    proof {
        let t2 = seq![c] + tail;
        assert(decimal_text(m as nat) =~= seq![c]);
        tail = t2;
    }
    rev.push(c);
    proof {
        assert forall|i: int| 0 <= i < tail.len() implies tail[i] == #[trigger] rev@[rev@.len() - 1 - i] by {
            if i > 0 {
                assert(tail[i] == old_tail[i - 1]);
                assert(rev@[rev@.len() - 1 - i] == old_rev[old_rev.len() - 1 - (i - 1)]);
            }
        }
    }
    let ghost start = out@;
    let mut k: usize = rev.len();
    while k > 0
        invariant
            k <= rev@.len(),
            tail.len() == rev@.len(),
            forall|i: int| 0 <= i < tail.len() ==> tail[i] == #[trigger] rev@[rev@.len() - 1 - i],
            out@ == start + tail.take(rev@.len() - k),
        decreases k,
    {
        k = k - 1;
        push_char(out, rev[k]);
        proof {
            assert(tail[rev@.len() - 1 - k] == rev@[rev@.len() - 1 - (rev@.len() - 1 - k)]);
            assert(tail.take(rev@.len() - k) =~= tail.take(rev@.len() - 1 - k).push(rev@[k as int]));
        }
    }
    assert(tail.take(rev@.len() as int) =~= tail);
}

/// The decimal text of `n` (std's `to_string` on `u64`).
pub fn u64_text(n: u64) -> (res: String)
    ensures
        res@ == decimal_text(n as nat),
{
    let mut out = String::new();
    push_decimal(&mut out, n);
    out
}

/// Appends the decimal text of the signed `n` to `out`.
pub fn push_signed_decimal(out: &mut String, n: i64)
    ensures
        final(out)@ == old(out)@ + signed_decimal_text(n as int),
{
    if n < 0 {
        push_char(out, '-');
        let m: u64 = if n == i64::MIN { 9223372036854775808u64 } else { (-n) as u64 };
        let ghost mid = out@;
        push_decimal(out, m);
        assert(out@ =~= old(out)@ + (seq!['-'] + decimal_text(m as nat)));
    } else {
        push_decimal(out, n as u64);
    }
}

/// The decimal text of `n` (std's `to_string` on `i64`).
pub fn i64_text(n: i64) -> (res: String)
    ensures
        res@ == signed_decimal_text(n as int),
{
    let mut out = String::new();
    push_signed_decimal(&mut out, n);
    out
}

// ---------------------------------------------------------------------------
// Paths
// ---------------------------------------------------------------------------

/// The path that std's `Path::join` builds on Unix: an absolute `rest` replaces
/// `base`; otherwise `rest` follows `base`, with one `/` between them unless
/// `base` is empty or already ends in `/`.
pub open spec fn joined_path(base: Seq<char>, rest: Seq<char>) -> Seq<char> {
    if rest.len() > 0 && rest[0] == '/' {
        rest
    } else if base.len() > 0 && base.last() != '/' {
        base + seq!['/'] + rest
    } else {
        base + rest
    }
}

/// Appends the characters of `s` to `out`.
pub fn push_chars(out: &mut String, s: &str)
    ensures
        final(out)@ == old(out)@ + s@,
{
    out.append(s);
}

/// Joins two path texts as std's `Path::join` does on Unix.
pub fn path_join(base: &str, rest: &str) -> (res: String)
    ensures
        res@ == joined_path(base@, rest@),
{
    let b = chars_of(base);
    let r = chars_of(rest);
    let mut out = String::new();
    if r.len() > 0 && r[0] == '/' {
        push_chars(&mut out, rest);
        assert(out@ =~= rest@);
        return out;
    }
    push_chars(&mut out, base);
    if b.len() > 0 && b[b.len() - 1] != '/' {
        push_char(&mut out, '/');
    }
    push_chars(&mut out, rest);
    proof {
        if b@.len() > 0 && b@.last() != '/' {
            assert(out@ =~= base@ + seq!['/'] + rest@);
        } else {
            assert(out@ =~= base@ + rest@);
        }
    }
    out
}

// ---------------------------------------------------------------------------
// Decimal text reads back as the number it was made from
// ---------------------------------------------------------------------------

proof fn lemma_digit_char(d: nat)
    requires
        d < 10,
    ensures
        is_digit(digit_char(d)),
        digit_value(digit_char(d)) == d,
{
}

proof fn lemma_decimal_text_reads_back(n: nat)
    ensures
        all_digits(decimal_text(n)),
        digits_value(decimal_text(n)) == n,
        decimal_text(n)[0] != '+' && decimal_text(n)[0] != '-',
    decreases n,
{
    if n < 10 {
        lemma_digit_char(n);
        assert(decimal_text(n).drop_last() =~= Seq::<char>::empty());
        assert(digits_value(Seq::<char>::empty()) == 0);
        assert(decimal_text(n).last() == digit_char(n));
    } else {
        lemma_decimal_text_reads_back(n / 10);
        lemma_digit_char(n % 10);
        let t = decimal_text(n);
        let p = decimal_text(n / 10);
        assert(t.drop_last() =~= p);
        assert(t.last() == digit_char(n % 10));
        assert(digits_value(t) == digits_value(p) * 10 + digit_value(t.last()));
        assert((n / 10) * 10 + n % 10 == n);
        assert forall|i: int| 0 <= i < t.len() implies #[trigger] is_digit(t[i]) by {
            if i < p.len() {
                assert(t[i] == p[i]);
            }
        }
        assert(t[0] == p[0]);
    }
}

/// Law: the decimal text of any integer reads back, through the grammar of
/// std's `FromStr` for signed integers, as that integer.
pub proof fn law_signed_decimal_reads_back(n: int)
    ensures
        integer_text_value(signed_decimal_text(n), true) == Some(n),
{
    if n < 0 {
        let m = (-n) as nat;
        lemma_decimal_text_reads_back(m);
        let t = signed_decimal_text(n);
        assert(t.drop_first() =~= decimal_text(m));
    } else {
        lemma_decimal_text_reads_back(n as nat);
    }
}

/// Law: the decimal text of any natural number reads back, through the grammar
/// of std's `FromStr` for unsigned integers, as that number.
pub proof fn law_decimal_reads_back(n: nat)
    ensures
        integer_text_value(decimal_text(n), false) == Some(n as int),
{
    lemma_decimal_text_reads_back(n);
}

// ---------------------------------------------------------------------------
// Lists of texts (command lines)
// ---------------------------------------------------------------------------

/// The characters of each string in a sequence of strings.
pub open spec fn texts(v: Seq<String>) -> Seq<Seq<char>> {
    Seq::new(v.len(), |i: int| v[i]@)
}

/// Appends a copy of `s` to a list of strings.
pub fn push_text(v: &mut Vec<String>, s: &str)
    ensures
        texts(final(v)@) == texts(old(v)@).push(s@),
{
    v.push(String::from_str(s));
    assert(texts(v@) =~= texts(old(v)@).push(s@));
}

} // verus!
