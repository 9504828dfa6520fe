//! Decimal text of integers: the digits `Display` writes for an integer and
//! the integers that `FromStr` reads back.

use crate::text::string_push;
use vstd::prelude::*;

verus! {

/// The ASCII character of decimal digit `d`.
pub open spec fn digit_char(d: int) -> char {
    (48 + d) as char
}

/// The value of an ASCII decimal digit character.
pub open spec fn digit_value(c: char) -> int {
    c as u32 - 48
}

/// Whether `c` is an ASCII decimal digit.
pub open spec fn is_digit(c: char) -> bool {
    48 <= c as u32 <= 57
}

/// The decimal digits of `n`, most significant first, without leading zeros.
pub open spec fn nat_digits(n: nat) -> Seq<char>
    decreases n,
{
    if n < 10 {
        seq![digit_char(n as int)]
    } else {
        nat_digits(n / 10).push(digit_char((n % 10) as int))
    }
}

/// The decimal text of `i`, with a leading `-` for negative values.
pub open spec fn int_text(i: int) -> Seq<char> {
    if i < 0 {
        seq!['-'] + nat_digits((-i) as nat)
    } else {
        nat_digits(i as nat)
    }
}

/// The value of a sequence of decimal digits (most significant first).
pub open spec fn digits_value(ds: Seq<char>) -> int
    decreases ds.len(),
{
    if ds.len() == 0 {
        0
    } else {
        digits_value(ds.drop_last()) * 10 + digit_value(ds.last())
    }
}

/// Whether every character is a decimal digit.
pub open spec fn all_digits(ds: Seq<char>) -> bool {
    forall|i: int| 0 <= i < ds.len() ==> is_digit(#[trigger] ds[i])
}

/// The integer that `FromStr` reads from `s`: an optional `+` (or `-` when
/// `signed`), then one or more decimal digits and nothing else.
pub open spec fn parse_int_text(s: Seq<char>, signed: bool) -> Option<int> {
    if s.len() == 0 {
        None
    } else if (s[0] == '+' || s[0] == '-') && s.len() == 1 {
        None
    } else {
        let neg = s[0] == '-' && signed;
        let ds = if s[0] == '+' || neg {
            s.drop_first()
        } else {
            s
        };
        if all_digits(ds) {
            Some(
                if neg {
                    -digits_value(ds)
                } else {
                    digits_value(ds)
                },
            )
        } else {
            None
        }
    }
}

/// Bound used while reading digits: every integer type read here is far
/// below it in magnitude.
pub open spec fn read_cap() -> int {
    0x2_0000_0000_0000_0000
}

proof fn lemma_digits_value_nonneg(ds: Seq<char>)
    requires
        all_digits(ds),
    ensures
        digits_value(ds) >= 0,
    decreases ds.len(),
{
    if ds.len() > 0 {
        assert(is_digit(ds[ds.len() - 1]));
        let front = ds.drop_last();
        assert forall|i: int| 0 <= i < front.len() implies is_digit(#[trigger] front[i]) by {
            assert(front[i] == ds[i]);
        }
        lemma_digits_value_nonneg(front);
    }
}

proof fn lemma_saturating_step(v: int, acc: int, d: int)
    requires
        v >= 0,
        0 <= d <= 9,
        acc == (if v < read_cap() {
            v
        } else {
            read_cap()
        }),
    ensures
        (if acc * 10 + d < read_cap() {
            acc * 10 + d
        } else {
            read_cap()
        }) == (if v * 10 + d < read_cap() {
            v * 10 + d
        } else {
            read_cap()
        }),
{
    if v >= read_cap() {
        assert(v * 10 + d >= read_cap()) by (nonlinear_arith)
            requires
                v >= read_cap(),
                d >= 0,
        ;
    }
}

/// Reads the integer that `FromStr` reads from `s`. A value whose magnitude
/// reaches `read_cap()` is reported as `None`, as for every fixed-size
/// integer type it is out of range.
pub fn parse_integer(s: &str, signed: bool) -> (r: Option<i128>)
    ensures
        r matches Some(v) ==> parse_int_text(s@, signed) == Some(v as int),
        parse_int_text(s@, signed) matches Some(v) ==> (-read_cap() < v < read_cap() ==> r == Some(
            v as i128,
        )),
{
    let cs = crate::text::str_chars(s);
    let n = cs.len();
    if n == 0 {
        return None;
    }
    let first = cs[0];
    if (first == '+' || first == '-') && n == 1 {
        return None;
    }
    let neg = first == '-' && signed;
    let start: usize = if first == '+' || neg {
        1
    } else {
        0
    };
    let ghost ds = if first == '+' || neg {
        s@.drop_first()
    } else {
        s@
    };
    assert(ds =~= cs@.subrange(start as int, n as int));
    let mut acc: u128 = 0;
    let mut i: usize = start;
    while i < n
        invariant
            start <= i <= n,
            n == cs@.len(),
            ds == cs@.subrange(start as int, n as int),
            cs@ == s@,
            n >= 1,
            first == s@[0],
            neg == (first == '-' && signed),
            !((first == '+' || first == '-') && n == 1),
            ds == (if first == '+' || neg {
                s@.drop_first()
            } else {
                s@
            }),
            all_digits(cs@.subrange(start as int, i as int)),
            acc as int == (if digits_value(cs@.subrange(start as int, i as int)) < read_cap() {
                digits_value(cs@.subrange(start as int, i as int))
            } else {
                read_cap()
            }),
        decreases n - i,
    {
        let c = cs[i];
        let code = c as u32;
        if code < 48 || code > 57 {
            assert(ds[i - start] == c);
            assert(!all_digits(ds));
            assert(s@[0] == first);
            assert(parse_int_text(s@, signed) is None);
            return None;
        }
        let d = (code - 48) as u128;
        let ghost prefix = cs@.subrange(start as int, i as int);
        let ghost next = cs@.subrange(start as int, i + 1);
        assert(next.drop_last() =~= prefix);
        assert(next.last() == c);
        assert forall|k: int| 0 <= k < next.len() implies is_digit(#[trigger] next[k]) by {
            if k < prefix.len() {
                assert(next[k] == prefix[k]);
            }
        }
        proof {
            lemma_digits_value_nonneg(prefix);
            lemma_saturating_step(digits_value(prefix), acc as int, d as int);
        }
        let grown = acc * 10 + d;
        if grown < 0x2_0000_0000_0000_0000 {
            acc = grown;
        } else {
            acc = 0x2_0000_0000_0000_0000;
        }
        i = i + 1;
    }
    assert(cs@.subrange(start as int, n as int) == ds);
    if acc >= 0x2_0000_0000_0000_0000 {
        proof {
            lemma_digits_value_nonneg(ds);
        }
        return None;
    }
    let v = acc as i128;
    if neg {
        Some(-v)
    } else {
        Some(v)
    }
}

/// The ASCII character of a decimal digit.
fn digit_to_char(d: u64) -> (c: char)
    requires
        d < 10,
    ensures
        c == digit_char(d as int),
{
    ((48 + d) as u8) as char
}

/// Appends the decimal digits of `n` to `out`.
pub fn push_digits(out: &mut String, n: u64)
    ensures
        final(out)@ == old(out)@ + nat_digits(n as nat),
    decreases n,
{
    if n >= 10 {
        push_digits(out, n / 10);
        string_push(out, digit_to_char(n % 10));
        assert(final(out)@ =~= old(out)@ + nat_digits(n as nat));
    } else {
        string_push(out, digit_to_char(n));
        assert(final(out)@ =~= old(out)@ + nat_digits(n as nat));
    }
}

/// The decimal text of a signed value given as sign and magnitude.
pub fn format_integer(negative: bool, magnitude: u64) -> (r: String)
    ensures
        r@ == int_text(
            if negative {
                -(magnitude as int)
            } else {
                magnitude as int
            },
        ),
{
    let mut out = String::new();
    if negative && magnitude > 0 {
        string_push(&mut out, '-');
    }
    push_digits(&mut out, magnitude);
    assert(out@ =~= int_text(
        if negative {
            -(magnitude as int)
        } else {
            magnitude as int
        },
    ));
    out
}

/// The decimal text of an unsigned value.
pub fn format_u64(v: u64) -> (r: String)
    ensures
        r@ == int_text(v as int),
{
    format_integer(false, v)
}

/// The decimal text of a signed value.
pub fn format_i64(v: i64) -> (r: String)
    ensures
        r@ == int_text(v as int),
{
    if v < 0 {
        let m: u64 = if v == i64::MIN {
            0x8000_0000_0000_0000
        } else {
            (-v) as u64
        };
        format_integer(true, m)
    } else {
        format_integer(false, v as u64)
    }
}

} // verus!
