//! Decimal text of fixed-point prices with six fractional digits.
use vstd::prelude::*;
use vstd::string::{StrSliceExecFns, StringExecFns};

use crate::constants::PRICE_PRECISION;
use crate::errors::DeltaNeutralVaultError;
use crate::math::checked_u64;

verus! {

/// The character of the decimal digit `d`.
pub open spec fn digit_char(d: int) -> char {
    if d == 0 {
        '0'
    } else if d == 1 {
        '1'
    } else if d == 2 {
        '2'
    } else if d == 3 {
        '3'
    } else if d == 4 {
        '4'
    } else if d == 5 {
        '5'
    } else if d == 6 {
        '6'
    } else if d == 7 {
        '7'
    } else if d == 8 {
        '8'
    } else {
        '9'
    }
}

/// Decimal digits of `n`, without leading zeros.
pub open spec fn decimal_text(n: nat) -> Seq<char>
    decreases n,
{
    if n < 10 {
        seq![digit_char(n as int)]
    } else {
        decimal_text(n / 10) + seq![digit_char((n % 10) as int)]
    }
}

/// The last `width` decimal digits of `n`, zero-padded on the left.
pub open spec fn padded_text(n: nat, width: nat) -> Seq<char>
    decreases width,
{
    if width == 0 {
        Seq::empty()
    } else {
        padded_text(n / 10, (width - 1) as nat) + seq![digit_char((n % 10) as int)]
    }
}

/// A price as its whole part, a point, and exactly six fractional digits.
pub open spec fn price_text(price: nat) -> Seq<char> {
    decimal_text(price / PRICE_PRECISION as nat) + seq!['.'] + padded_text(
        price % PRICE_PRECISION as nat,
        6,
    )
}

/// The one-character text of the digit `d`.
fn digit_str(d: u64) -> (r: &'static str)
    requires
        d < 10,
    ensures
        r@ == seq![digit_char(d as int)],
{
    if d == 0 {
        proof {
            reveal_strlit("0");
        }
        "0"
    } else if d == 1 {
        proof {
            reveal_strlit("1");
        }
        "1"
    } else if d == 2 {
        proof {
            reveal_strlit("2");
        }
        "2"
    } else if d == 3 {
        proof {
            reveal_strlit("3");
        }
        "3"
    } else if d == 4 {
        proof {
            reveal_strlit("4");
        }
        "4"
    } else if d == 5 {
        proof {
            reveal_strlit("5");
        }
        "5"
    } else if d == 6 {
        proof {
            reveal_strlit("6");
        }
        "6"
    } else if d == 7 {
        proof {
            reveal_strlit("7");
        }
        "7"
    } else if d == 8 {
        proof {
            reveal_strlit("8");
        }
        "8"
    } else {
        proof {
            reveal_strlit("9");
        }
        "9"
    }
}

/// Appends the decimal digits of `n`.
fn push_decimal(out: &mut String, n: u64)
    ensures
        final(out)@ == old(out)@ + decimal_text(n as nat),
    decreases n,
{
    if n >= 10 {
        push_decimal(out, n / 10);
    }
    out.append(digit_str(n % 10));
    assert(final(out)@ =~= old(out)@ + decimal_text(n as nat));
}

/// Appends the last `width` decimal digits of `n`, zero-padded.
fn push_padded(out: &mut String, n: u64, width: u64)
    ensures
        final(out)@ == old(out)@ + padded_text(n as nat, width as nat),
    decreases width,
{
    if width == 0 {
        assert(final(out)@ =~= old(out)@ + padded_text(n as nat, width as nat));
        return;
    }
    push_padded(out, n / 10, width - 1);
    out.append(digit_str(n % 10));
    assert(final(out)@ =~= old(out)@ + padded_text(n as nat, width as nat));
}

/// Writes a price as its whole part, a point, and six fractional digits.
pub fn format_price(price: u64) -> (r: String)
    ensures
        r@ == price_text(price as nat),
{
    let mut out = String::new();
    push_decimal(&mut out, price / PRICE_PRECISION);
    proof {
        reveal_strlit(".");
    }
    out.append(".");
    push_padded(&mut out, price % PRICE_PRECISION, 6);
    assert(out@ =~= price_text(price as nat));
    out
}

/// Whether `c` is an ASCII decimal digit.
pub open spec fn is_digit(c: char) -> bool {
    '0' <= c && c <= '9'
}

/// Whether every character of `s` is a decimal digit.
pub open spec fn all_digits(s: Seq<char>) -> bool {
    forall|i: int| 0 <= i < s.len() ==> is_digit(#[trigger] s[i])
}

/// The number that the decimal digits `s` write.
pub open spec fn digits_value(s: Seq<char>) -> int
    decreases s.len(),
{
    if s.len() == 0 {
        0
    } else {
        digits_value(s.drop_last()) * 10 + ((s.last() as u32) - ('0' as u32))
    }
}

/// The value of an unsigned 64-bit integer in decimal text, as `u64`'s own text form
/// reads it: an optional `+`, then at least one digit, the value fitting 64 bits.
pub open spec fn unsigned_text_value(t: Seq<char>) -> Option<int> {
    let d = if t.len() > 0 && t[0] == '+' {
        t.drop_first()
    } else {
        t
    };
    if d.len() > 0 && all_digits(d) && digits_value(d) <= u64::MAX {
        Some(digits_value(d))
    } else {
        None
    }
}

/// The six characters read as the fractional part: the first six after the point, or all
/// of them followed by zeros.
pub open spec fn fraction_field(f: Seq<char>) -> Seq<char> {
    if f.len() >= 6 {
        f.subrange(0, 6)
    } else {
        f + Seq::new((6 - f.len()) as nat, |i: int| '0')
    }
}

/// Whether `s` holds no `c`.
pub open spec fn lacks(s: Seq<char>, c: char) -> bool {
    forall|i: int| 0 <= i < s.len() ==> s[i] != c
}

/// Whether `k` is the position of the first `c` in `s`.
pub open spec fn first_at(s: Seq<char>, c: char, k: int) -> bool {
    &&& 0 <= k < s.len()
    &&& s[k] == c
    &&& forall|j: int| 0 <= j < k ==> s[j] != c
}

/// The fixed-point value of a price text: a whole part, then optionally a point and a
/// fractional part of which the first six digits count.
pub open spec fn price_value(s: Seq<char>) -> Result<u64, DeltaNeutralVaultError> {
    if lacks(s, '.') {
        match unsigned_text_value(s) {
            Some(w) => checked_u64(w * PRICE_PRECISION),
            None => Err(DeltaNeutralVaultError::InvalidPriceFormat),
        }
    } else {
        let k = choose|k: int| first_at(s, '.', k);
        let rest = s.subrange(k + 1, s.len() as int);
        if !lacks(rest, '.') {
            Err(DeltaNeutralVaultError::InvalidPriceFormat)
        } else {
            match (unsigned_text_value(s.subrange(0, k)), unsigned_text_value(fraction_field(rest))) {
                (Some(w), Some(f)) => checked_u64(w * PRICE_PRECISION + f),
                _ => Err(DeltaNeutralVaultError::InvalidPriceFormat),
            }
        }
    }
}

/// Dropping trailing digits never makes a decimal number larger.
proof fn lemma_digits_prefix(s: Seq<char>, i: int)
    requires
        0 <= i <= s.len(),
        all_digits(s),
    ensures
        0 <= digits_value(s.subrange(0, i)) <= digits_value(s),
    decreases s.len(),
{
    if s.len() > 0 {
        let shorter = s.drop_last();
        assert(all_digits(shorter)) by {
            assert forall|j: int| 0 <= j < shorter.len() implies is_digit(shorter[j]) by {
                assert(shorter[j] == s[j]);
            }
        }
        assert(is_digit(s[s.len() - 1]));
        if i < s.len() {
            lemma_digits_prefix(shorter, i);
            assert(shorter.subrange(0, i) =~= s.subrange(0, i));
        } else {
            lemma_digits_prefix(shorter, i - 1);
            assert(shorter.subrange(0, i - 1) =~= shorter);
        }
    }
    if i == s.len() {
        assert(s.subrange(0, i) =~= s);
    }
}

/// Reads an unsigned 64-bit integer from decimal text.
fn parse_unsigned(t: &Vec<char>) -> (r: Option<u64>)
    ensures
        match unsigned_text_value(t@) {
            Some(v) => r is Some && r->0 == v,
            None => r is None,
        },
{
    let n = t.len();
    let mut start: usize = 0;
    if n > 0 && t[0] == '+' {
        start = 1;
    }
    let ghost d = t@.subrange(start as int, n as int);
    assert(d =~= (if t@.len() > 0 && t@[0] == '+' {
        t@.drop_first()
    } else {
        t@
    }));
    if start == n {
        return None;
    }
    let mut value: u64 = 0;
    let mut i: usize = start;
    assert(t@.subrange(start as int, start as int) =~= Seq::<char>::empty());
    while i < n
        invariant
            start <= i <= n,
            n == t@.len(),
            d == t@.subrange(start as int, n as int),
            d == (if t@.len() > 0 && t@[0] == '+' {
                t@.drop_first()
            } else {
                t@
            }),
            forall|j: int| start <= j < i ==> is_digit(#[trigger] t@[j]),
            value == digits_value(t@.subrange(start as int, i as int)),
        decreases n - i,
    {
        let c = t[i];
        if !('0' <= c && c <= '9') {
            assert(d[i - start] == c);
            assert(!is_digit(d[i - start]));
            return None;
        }
        let digit = (c as u32 - '0' as u32) as u64;
        let ghost longer = t@.subrange(start as int, i + 1);
        assert(longer.drop_last() =~= t@.subrange(start as int, i as int));
        assert(longer.last() == c);
        assert(digits_value(longer) == value * 10 + digit);
        if value > (u64::MAX - digit) / 10 {
            proof {
                if all_digits(d) {
                    lemma_digits_prefix(d, i + 1 - start);
                    assert(d.subrange(0, i + 1 - start) =~= longer);
                }
            }
            return None;
        }
        value = value * 10 + digit;
        i = i + 1;
    }
    assert(all_digits(d));
    Some(value)
}

/// The characters of `s`, one by one.
fn chars_of(s: &str) -> (r: Vec<char>)
    ensures
        r@ == s@,
{
    let n = s.unicode_len();
    let mut out: Vec<char> = Vec::new();
    let mut i: usize = 0;
    while i < n
        invariant
            n == s@.len(),
            i <= n,
            out@ == s@.subrange(0, i as int),
        decreases n - i,
    {
        out.push(s.get_char(i));
        i = i + 1;
        assert(out@ =~= s@.subrange(0, i as int));
    }
    assert(out@ =~= s@);
    out
}

/// Position of the first `c` at or after `from`.
fn find_char(v: &Vec<char>, from: usize, c: char) -> (r: Option<usize>)
    requires
        from <= v@.len(),
    ensures
        match r {
            Some(k) => from <= k < v@.len() && v@[k as int] == c && forall|j: int|
                from <= j < k ==> v@[j] != c,
            None => forall|j: int| from <= j < v@.len() ==> v@[j] != c,
        },
{
    let mut i: usize = from;
    while i < v.len()
        invariant
            from <= i <= v@.len(),
            forall|j: int| from <= j < i ==> v@[j] != c,
        decreases v@.len() - i,
    {
        if v[i] == c {
            return Some(i);
        }
        i = i + 1;
    }
    None
}

/// The characters of `v` from `from` up to `to`.
fn chars_between(v: &Vec<char>, from: usize, to: usize) -> (r: Vec<char>)
    requires
        from <= to <= v@.len(),
    ensures
        r@ == v@.subrange(from as int, to as int),
{
    let mut out: Vec<char> = Vec::new();
    let mut i: usize = from;
    while i < to
        invariant
            from <= i <= to <= v@.len(),
            out@ == v@.subrange(from as int, i as int),
        decreases to - i,
    {
        out.push(v[i]);
        i = i + 1;
        assert(out@ =~= v@.subrange(from as int, i as int));
    }
    out
}

/// The six-character fractional field of the characters of `v` from `from` on.
fn fraction_chars(v: &Vec<char>, from: usize) -> (r: Vec<char>)
    requires
        from <= v@.len(),
    ensures
        r@ == fraction_field(v@.subrange(from as int, v@.len() as int)),
{
    let ghost rest = v@.subrange(from as int, v@.len() as int);
    let mut out: Vec<char> = Vec::new();
    let mut j: usize = 0;
    while j < 6
        invariant
            j <= 6,
            from <= v@.len(),
            rest == v@.subrange(from as int, v@.len() as int),
            out@.len() == j,
            forall|i: int| 0 <= i < j ==> out@[i] == if i < rest.len() {
                rest[i]
            } else {
                '0'
            },
        decreases 6 - j,
    {
        if j < v.len() - from {
            out.push(v[from + j]);
        } else {
            out.push('0');
        }
        j = j + 1;
    }
    assert(out@ =~= fraction_field(rest));
    out
}

/// Reads a price text into fixed point with six fractional digits: `"1.5"` is
/// `1_500_000`. Digits past the sixth fractional one are ignored.
pub fn parse_price(price_str: &str) -> (r: Result<u64, DeltaNeutralVaultError>)
    ensures
        r == price_value(price_str@),
{
    let chars = chars_of(price_str);
    let ghost s = price_str@;
    let (whole, fraction) = match find_char(&chars, 0, '.') {
        None => {
            let w = match parse_unsigned(&chars) {
                Some(w) => w,
                None => return Err(DeltaNeutralVaultError::InvalidPriceFormat),
            };
            assert(lacks(s, '.'));
            (w, 0u64)
        },
        Some(k) => {
            assert(first_at(s, '.', k as int));
            let ghost chosen = choose|k: int| first_at(s, '.', k);
            assert(chosen == k as int) by {
                if chosen < k as int {
                    assert(s[chosen] == '.');
                } else if chosen > k as int {
                    assert(s[k as int] == '.');
                }
            }
            if let Some(second) = find_char(&chars, k + 1, '.') {
                assert(s.subrange(k + 1, s.len() as int)[second - k - 1] == '.');
                return Err(DeltaNeutralVaultError::InvalidPriceFormat);
            }
            assert(lacks(s.subrange(k + 1, s.len() as int), '.'));
            let whole_chars = chars_between(&chars, 0, k);
            let field = fraction_chars(&chars, k + 1);
            let w = match parse_unsigned(&whole_chars) {
                Some(w) => w,
                None => return Err(DeltaNeutralVaultError::InvalidPriceFormat),
            };
            let f = match parse_unsigned(&field) {
                Some(f) => f,
                None => return Err(DeltaNeutralVaultError::InvalidPriceFormat),
            };
            (w, f)
        },
    };
    let value = whole as u128 * PRICE_PRECISION as u128 + fraction as u128;
    assert(price_value(s) == checked_u64(whole * PRICE_PRECISION + fraction));
    if value > u64::MAX as u128 {
        Err(DeltaNeutralVaultError::ArithmeticOverflow)
    } else {
        Ok(value as u64)
    }
}

} // verus!
