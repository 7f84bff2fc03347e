//! Parsing of the frontend's option strings ("2x", "16:9 (widescreen)", "enabled").
use vstd::prelude::*;
use vstd::string::StrSliceExecFns;

verus! {

/// Whether a character belongs to one of Unicode's number categories.
pub uninterp spec fn numeric_char(c: char) -> bool;

/// Relies on `char::is_numeric`: true for the characters of Unicode's number
/// categories (Nd, Nl, No), a property of the character alone.
#[verifier::external_body]
fn is_numeric(c: char) -> (r: bool)
    ensures
        r == numeric_char(c),
{
    c.is_numeric()
}

/// Why a decimal option value could not be read.
#[derive(Clone, Copy, Debug, PartialEq, Eq, Structural)]
pub enum ParseNumError {
    /// Nothing was left to parse.
    Empty,
    /// A character other than an ASCII digit (after an optional leading `+`).
    InvalidDigit,
    /// The value does not fit the target type.
    PosOverflow,
}

/// `s` with its leading non-numeric characters removed.
pub open spec fn trim_front(s: Seq<char>) -> Seq<char>
    decreases s.len(),
{
    if s.len() > 0 && !numeric_char(s[0]) {
        trim_front(s.drop_first())
    } else {
        s
    }
}

/// `s` with its trailing non-numeric characters removed.
pub open spec fn trim_back(s: Seq<char>) -> Seq<char>
    decreases s.len(),
{
    if s.len() > 0 && !numeric_char(s.last()) {
        trim_back(s.drop_last())
    } else {
        s
    }
}

/// `s` with the non-numeric characters removed from both ends.
pub open spec fn trim_non_numeric_spec(s: Seq<char>) -> Seq<char> {
    trim_back(trim_front(s))
}

pub open spec fn is_ascii_digit(c: char) -> bool {
    '0' <= c <= '9'
}

pub open spec fn digit_value(c: char) -> int {
    c as int - '0' as int
}

/// Reads the digits of `d` from the left onto `acc`, failing at the first
/// character that is no digit or the first digit that takes the value past `max`.
pub open spec fn scan_digits(d: Seq<char>, acc: int, max: int) -> Result<int, ParseNumError>
    decreases d.len(),
{
    if d.len() == 0 {
        Ok(acc)
    } else if !is_ascii_digit(d[0]) {
        Err(ParseNumError::InvalidDigit)
    } else if acc * 10 + digit_value(d[0]) > max {
        Err(ParseNumError::PosOverflow)
    } else {
        scan_digits(d.drop_first(), acc * 10 + digit_value(d[0]), max)
    }
}

/// Unsigned decimal notation: an optional `+` then at least one ASCII digit,
/// with a value of at most `max`.
pub open spec fn parse_unsigned_spec(s: Seq<char>, max: u32) -> Result<u32, ParseNumError> {
    if s.len() == 0 {
        Err(ParseNumError::Empty)
    } else {
        let d = if s[0] == '+' {
            s.drop_first()
        } else {
            s
        };
        if d.len() == 0 {
            Err(ParseNumError::InvalidDigit)
        } else {
            match scan_digits(d, 0, max as int) {
                Ok(v) => Ok(v as u32),
                Err(e) => Err(e),
            }
        }
    }
}

/// The index of the first `c` in `t` at or after `i`, or `t.len()` if none.
pub open spec fn index_from(t: Seq<char>, c: char, i: int) -> int
    decreases t.len() - i,
{
    if i < 0 || i >= t.len() {
        t.len() as int
    } else if t[i] == c {
        i
    } else {
        index_from(t, c, i + 1)
    }
}

pub open spec fn parse_bool_spec(s: Seq<char>) -> Result<bool, ()> {
    if s == "true"@ || s == "enabled"@ || s == "on"@ {
        Ok(true)
    } else if s == "false"@ || s == "disabled"@ || s == "off"@ {
        Ok(false)
    } else {
        Err(())
    }
}

/// The two fields of a "w:h" ratio: what stands before the first `:`, and what
/// stands between it and the next `:` (or the end).
pub open spec fn ratio_spec(s: Seq<char>) -> Result<(u32, u32), ()> {
    let t = trim_non_numeric_spec(s);
    let k = index_from(t, ':', 0);
    if k >= t.len() {
        Err(())
    } else {
        let rest = t.subrange(k + 1, t.len() as int);
        let a = parse_unsigned_spec(t.subrange(0, k), u32::MAX);
        let b = parse_unsigned_spec(rest.subrange(0, index_from(rest, ':', 0)), u32::MAX);
        if a is Ok && b is Ok {
            Ok((a->Ok_0, b->Ok_0))
        } else {
            Err(())
        }
    }
}

/// True when `s` holds exactly the characters of `lit`.
pub fn str_eq(s: &str, lit: &str) -> (r: bool)
    ensures
        r == (s@ == lit@),
{
    let n = s.unicode_len();
    let m = lit.unicode_len();
    if n != m {
        return false;
    }
    let mut i: usize = 0;
    while i < n
        invariant
            n == s@.len(),
            m == lit@.len(),
            n == m,
            i <= n,
            forall|j: int| 0 <= j < i ==> s@[j] == lit@[j],
        decreases n - i,
    {
        if s.get_char(i) != lit.get_char(i) {
            return false;
        }
        i = i + 1;
    }
    assert(s@ =~= lit@);
    true
}

/// The index of the first `c` in `s` at or after `from`, or the length of `s`.
pub fn find_char(s: &str, c: char, from: usize) -> (r: usize)
    requires
        from <= s@.len(),
    ensures
        r == index_from(s@, c, from as int),
        from <= r <= s@.len(),
{
    let n = s.unicode_len();
    let mut i: usize = from;
    while i < n
        invariant
            n == s@.len(),
            from <= i <= n,
            index_from(s@, c, from as int) == index_from(s@, c, i as int),
        decreases n - i,
    {
        if s.get_char(i) == c {
            return i;
        }
        i = i + 1;
    }
    i
}

/// Removes the non-numeric characters at both ends of `s` ("2x" gives "2").
pub fn trim_non_numeric(s: &str) -> (r: &str)
    ensures
        r@ == trim_non_numeric_spec(s@),
{
    let n = s.unicode_len();
    let mut i: usize = 0;
    assert(s@.subrange(0, n as int) =~= s@);
    while i < n && !is_numeric(s.get_char(i))
        invariant
            n == s@.len(),
            i <= n,
            trim_front(s@) == trim_front(s@.subrange(i as int, n as int)),
        decreases n - i,
    {
        assert(s@.subrange(i as int, n as int).drop_first() =~= s@.subrange(
            i + 1,
            n as int,
        ));
        i = i + 1;
    }
    assert(trim_front(s@) == s@.subrange(i as int, n as int));
    let mut j: usize = n;
    while j > i && !is_numeric(s.get_char(j - 1))
        invariant
            n == s@.len(),
            i <= j <= n,
            trim_non_numeric_spec(s@) == trim_back(s@.subrange(i as int, j as int)),
        decreases j,
    {
        assert(s@.subrange(i as int, j as int).drop_last() =~= s@.subrange(
            i as int,
            j - 1,
        ));
        j = j - 1;
    }
    s.substring_char(i, j)
}

/// Reads unsigned decimal notation, with std's rules for unsigned integers:
/// an optional `+`, then ASCII digits, with a value of at most `max`.
pub fn parse_unsigned(s: &str, max: u32) -> (r: Result<u32, ParseNumError>)
    ensures
        r == parse_unsigned_spec(s@, max),
{
    let n = s.unicode_len();
    if n == 0 {
        return Err(ParseNumError::Empty);
    }
    let start: usize = if s.get_char(0) == '+' {
        1
    } else {
        0
    };
    if start == n {
        return Err(ParseNumError::InvalidDigit);
    }
    let ghost d = s@.subrange(start as int, n as int);
    assert(start == 1 ==> d =~= s@.drop_first());
    assert(start == 0 ==> d =~= s@);
    let mut acc: u32 = 0;
    let mut i: usize = start;
    while i < n
        invariant
            n == s@.len(),
            start <= i <= n,
            d == s@.subrange(start as int, n as int),
            parse_unsigned_spec(s@, max) == (match scan_digits(d, 0, max as int) {
                Ok(v) => Ok(v as u32),
                Err(e) => Err(e),
            }),
            acc <= max,
            scan_digits(d, 0, max as int) == scan_digits(
                s@.subrange(i as int, n as int),
                acc as int,
                max as int,
            ),
        decreases n - i,
    {
        let c = s.get_char(i);
        assert(s@.subrange(i as int, n as int)[0] == c);
        assert(s@.subrange(i as int, n as int).len() > 0);
        if !('0' <= c && c <= '9') {
            assert(scan_digits(s@.subrange(i as int, n as int), acc as int, max as int)
                == Err::<int, ParseNumError>(ParseNumError::InvalidDigit));
            return Err(ParseNumError::InvalidDigit);
        }
        let v: u32 = (c as u32) - ('0' as u32);
        if v > max {
            return Err(ParseNumError::PosOverflow);
        }
        if acc > (max - v) / 10 {
            assert(acc * 10 + v > max) by (nonlinear_arith)
                requires
                    acc > (max - v) / 10,
                    v <= max,
            ;
            return Err(ParseNumError::PosOverflow);
        }
        assert(acc * 10 + v <= max) by (nonlinear_arith)
            requires
                acc <= (max - v) / 10,
                v <= max,
        ;
        assert(s@.subrange(i as int, n as int).drop_first() =~= s@.subrange(
            i + 1,
            n as int,
        ));
        acc = acc * 10 + v;
        i = i + 1;
    }
    Ok(acc)
}

/// Reads a boolean option: "true", "enabled", "on" give `true`; "false",
/// "disabled", "off" give `false`; anything else is an error.
pub fn parse_bool(opt: &str) -> (r: Result<bool, ()>)
    ensures
        r == parse_bool_spec(opt@),
{
    if str_eq(opt, "true") || str_eq(opt, "enabled") || str_eq(opt, "on") {
        Ok(true)
    } else if str_eq(opt, "false") || str_eq(opt, "disabled") || str_eq(opt, "off") {
        Ok(false)
    } else {
        Err(())
    }
}

/// Reads the number that a label carries ("4x" gives 4, "3x (native)" gives 3).
pub fn parse_numeric(opt: &str) -> (r: Result<u32, ParseNumError>)
    ensures
        r == parse_unsigned_spec(trim_non_numeric_spec(opt@), u32::MAX),
{
    parse_unsigned(trim_non_numeric(opt), u32::MAX)
}

/// Reads the internal upscaling factor from its label ("2x" gives 2).
pub fn parse_upscale(opt: &str) -> (r: Result<u32, ParseNumError>)
    ensures
        r == parse_unsigned_spec(trim_non_numeric_spec(opt@), u32::MAX),
{
    parse_numeric(opt)
}

/// Reads the internal color depth from its label ("32bpp" gives 32).
pub fn parse_color_depth(opt: &str) -> (r: Result<u8, ParseNumError>)
    ensures
        r == (match parse_unsigned_spec(trim_non_numeric_spec(opt@), 255) {
            Ok(v) => Ok(v as u8),
            Err(e) => Err(e),
        }),
{
    match parse_unsigned(trim_non_numeric(opt), 255) {
        Ok(v) => Ok(v as u8),
        Err(e) => Err(e),
    }
}

/// Reads a screen ratio label ("16:9 (widescreen)" gives (16, 9)).
pub fn parse_ratio(opt: &str) -> (r: Result<(u32, u32), ()>)
    ensures
        r == ratio_spec(opt@),
{
    let t = trim_non_numeric(opt);
    let n = t.unicode_len();
    let k = find_char(t, ':', 0);
    if k >= n {
        return Err(());
    }
    let first = t.substring_char(0, k);
    let rest = t.substring_char(k + 1, n);
    let m = find_char(rest, ':', 0);
    let second = rest.substring_char(0, m);
    match (parse_unsigned(first, u32::MAX), parse_unsigned(second, u32::MAX)) {
        (Ok(a), Ok(b)) => Ok((a, b)),
        _ => Err(()),
    }
}

} // verus!
