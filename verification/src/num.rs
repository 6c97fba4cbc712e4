//! Decimal reading and writing of unsigned integers, as std's
//! `str::parse::<u64>` and `u64::to_string` do it.
use vstd::prelude::*;
use vstd::string::*;
use crate::text::push_char;

verus! {

/// Why a decimal number could not be read (the kinds of std's `ParseIntError`
/// that an unsigned parse can report).
#[derive(PartialEq, Eq, Structural, Clone, Copy, Debug)]
pub enum IntErrorKind {
    Empty,
    InvalidDigit,
    PosOverflow,
}

pub open spec fn is_digit(c: char) -> bool {
    '0' <= c && c <= '9'
}

pub open spec fn digit_value(c: char) -> int {
    (c as int) - ('0' as int)
}

/// The digit character for `d` in `0..10`.
pub open spec fn digit_char(d: int) -> char {
    if d <= 0 {
        '0'
    } else if d == 1 {
        '1'
    } else if d == 2 {
        '2'
    } else if d == 3 {
        '3'
    } else if d == 4 {
        '4'
    } else if d == 5 {
        '5'
    } else if d == 6 {
        '6'
    } else if d == 7 {
        '7'
    } else if d == 8 {
        '8'
    } else {
        '9'
    }
}

/// Reads the digits `d` left to right, starting from the value `acc`; the
/// first character that is no digit, or the first digit that takes the value
/// past `u64::MAX`, decides the error.
pub open spec fn scan_digits(d: Seq<char>, acc: int) -> Result<int, IntErrorKind>
    decreases d.len(),
{
    if d.len() == 0 {
        Ok(acc)
    } else if !is_digit(d[0]) {
        Err(IntErrorKind::InvalidDigit)
    } else if acc * 10 + digit_value(d[0]) > u64::MAX {
        Err(IntErrorKind::PosOverflow)
    } else {
        scan_digits(d.drop_first(), acc * 10 + digit_value(d[0]))
    }
}

/// The result of `s.parse::<u64>()`: an optional `+` sign followed by at least
/// one decimal digit.
pub open spec fn parse_u64_spec(s: Seq<char>) -> Result<u64, IntErrorKind> {
    if s.len() == 0 {
        Err(IntErrorKind::Empty)
    } else {
        let d = if s[0] == '+' {
            s.drop_first()
        } else {
            s
        };
        if d.len() == 0 {
            Err(IntErrorKind::InvalidDigit)
        } else {
            match scan_digits(d, 0) {
                Ok(v) => Ok(v as u64),
                Err(k) => Err(k),
            }
        }
    }
}

proof fn lemma_scan_bounded(d: Seq<char>, acc: int)
    requires
        0 <= acc <= u64::MAX,
    ensures
        scan_digits(d, acc) matches Ok(v) ==> 0 <= v <= u64::MAX,
    decreases d.len(),
{
    if d.len() > 0 && is_digit(d[0]) && acc * 10 + digit_value(d[0]) <= u64::MAX {
        lemma_scan_bounded(d.drop_first(), acc * 10 + digit_value(d[0]));
    }
}

/// `s.parse::<u64>()`.
pub fn parse_u64(s: &str) -> (r: Result<u64, IntErrorKind>)
    ensures
        r == parse_u64_spec(s@),
{
    let v = crate::text::to_chars(s);
    if v.len() == 0 {
        return Err(IntErrorKind::Empty);
    }
    let start: usize = if v[0] == '+' {
        1
    } else {
        0
    };
    let ghost d = if s@[0] == '+' {
        s@.drop_first()
    } else {
        s@
    };
    assert(d =~= s@.subrange(start as int, s@.len() as int));
    if start == v.len() {
        return Err(IntErrorKind::InvalidDigit);
    }
    let mut acc: u64 = 0;
    let mut i: usize = start;
    proof {
        lemma_scan_bounded(d, 0);
    }
    while i < v.len()
        invariant
            v@ == s@,
            start <= i <= v@.len(),
            d == s@.subrange(start as int, s@.len() as int),
            parse_u64_spec(s@) == (match scan_digits(d, 0) {
                Ok(x) => Ok(x as u64),
                Err(k) => Err(k),
            }),
            scan_digits(d, 0) == scan_digits(s@.subrange(i as int, s@.len() as int), acc as int),
        decreases v@.len() - i,
    {
        let c = v[i];
        let ghost rest = s@.subrange(i as int, s@.len() as int);
        assert(rest[0] == c);
        if !('0' <= c && c <= '9') {
            return Err(IntErrorKind::InvalidDigit);
        }
        let dv: u64 = ((c as u32) - ('0' as u32)) as u64;
        if acc > 1844674407370955161 || (acc == 1844674407370955161 && dv > 5) {
            return Err(IntErrorKind::PosOverflow);
        }
        acc = acc * 10 + dv;
        i = i + 1;
        assert(rest.drop_first() =~= s@.subrange(i as int, s@.len() as int));
    }
    assert(s@.subrange(i as int, s@.len() as int).len() == 0);
    Ok(acc)
}

/// The decimal digits of `n`, most significant first, without leading zeros.
pub open spec fn decimal_spec(n: nat) -> Seq<char>
    decreases n,
{
    if n < 10 {
        seq![digit_char(n as int)]
    } else {
        decimal_spec(n / 10).push(digit_char((n % 10) as int))
    }
}

/// Appends the decimal digits of `n` to `out`.
pub fn write_decimal(out: &mut String, n: u64)
    ensures
        final(out)@ == old(out)@ + decimal_spec(n as nat),
    decreases n,
{
    if n >= 10 {
        write_decimal(out, n / 10);
    }
    let d: u32 = (n % 10) as u32;
    let c: char = if d == 0 {
        '0'
    } else if d == 1 {
        '1'
    } else if d == 2 {
        '2'
    } else if d == 3 {
        '3'
    } else if d == 4 {
        '4'
    } else if d == 5 {
        '5'
    } else if d == 6 {
        '6'
    } else if d == 7 {
        '7'
    } else if d == 8 {
        '8'
    } else {
        '9'
    };
    assert(c == digit_char((n % 10) as int));
    push_char(out, c);
    assert(final(out)@ =~= old(out)@ + decimal_spec(n as nat));
}

/// `n.to_string()`.
pub fn u64_to_string(n: u64) -> (s: String)
    ensures
        s@ == decimal_spec(n as nat),
{
    let mut s = String::new();
    write_decimal(&mut s, n);
    assert(s@ =~= decimal_spec(n as nat));
    s
}

proof fn lemma_scan_append(d1: Seq<char>, d2: Seq<char>, acc: int)
    ensures
        scan_digits(d1 + d2, acc) == (match scan_digits(d1, acc) {
            Ok(a) => scan_digits(d2, a),
            Err(k) => Err(k),
        }),
    decreases d1.len(),
{
    if d1.len() > 0 {
        assert((d1 + d2)[0] == d1[0]);
        assert((d1 + d2).drop_first() =~= d1.drop_first() + d2);
        lemma_scan_append(d1.drop_first(), d2, acc * 10 + digit_value(d1[0]));
    } else {
        assert(d1 + d2 =~= d2);
    }
}

proof fn lemma_digit_char(d: int)
    requires
        0 <= d < 10,
    ensures
        is_digit(digit_char(d)),
        digit_value(digit_char(d)) == d,
{
}

proof fn lemma_scan_one(c: char, acc: int)
    requires
        is_digit(c),
        acc * 10 + digit_value(c) <= u64::MAX,
    ensures
        scan_digits(seq![c], acc) == Ok::<int, IntErrorKind>(acc * 10 + digit_value(c)),
{
    let s = seq![c];
    assert(s[0] == c);
    assert(s.drop_first() =~= Seq::<char>::empty());
    assert(scan_digits(s.drop_first(), acc * 10 + digit_value(c)) == Ok::<int, IntErrorKind>(
        acc * 10 + digit_value(c),
    ));
}

proof fn lemma_decimal_digits(n: nat)
    ensures
        decimal_spec(n).len() > 0,
        forall|i: int| 0 <= i < decimal_spec(n).len() ==> is_digit(#[trigger] decimal_spec(n)[i]),
        n <= u64::MAX ==> scan_digits(decimal_spec(n), 0) == Ok::<int, IntErrorKind>(n as int),
    decreases n,
{
    if n >= 10 {
        lemma_decimal_digits(n / 10);
        let c = digit_char((n % 10) as int);
        lemma_digit_char((n % 10) as int);
        lemma_scan_append(decimal_spec(n / 10), seq![c], 0);
        assert(decimal_spec(n) =~= decimal_spec(n / 10) + seq![c]);
        assert(seq![c].drop_first().len() == 0);
        assert((n / 10) * 10 + n % 10 == n);
        if n <= u64::MAX {
            lemma_scan_one(c, (n / 10) as int);
        }
    } else {
        lemma_digit_char(n as int);
        lemma_scan_one(digit_char(n as int), 0);
    }
}

/// Reading back the decimal text of a number gives the number.
pub proof fn lemma_parse_of_decimal(n: u64)
    ensures
        parse_u64_spec(decimal_spec(n as nat)) == Ok::<u64, IntErrorKind>(n),
{
    lemma_decimal_digits(n as nat);
    assert(is_digit(decimal_spec(n as nat)[0]));
}

/// The `Debug` text of std's `ParseIntError` with the given kind.
pub open spec fn parse_int_error_debug_spec(k: IntErrorKind) -> Seq<char> {
    match k {
        IntErrorKind::Empty => "ParseIntError { kind: Empty }"@,
        IntErrorKind::InvalidDigit => "ParseIntError { kind: InvalidDigit }"@,
        IntErrorKind::PosOverflow => "ParseIntError { kind: PosOverflow }"@,
    }
}

/// `format!("{:?}", e)` for a `ParseIntError` of kind `k`.
pub fn parse_int_error_debug(k: IntErrorKind) -> (s: String)
    ensures
        s@ == parse_int_error_debug_spec(k),
{
    match k {
        IntErrorKind::Empty => String::from_str("ParseIntError { kind: Empty }"),
        IntErrorKind::InvalidDigit => String::from_str("ParseIntError { kind: InvalidDigit }"),
        IntErrorKind::PosOverflow => String::from_str("ParseIntError { kind: PosOverflow }"),
    }
}

} // verus!
