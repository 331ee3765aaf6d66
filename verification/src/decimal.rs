//! Whole numbers and decimal fractions as text.
//!
//! Reading accepts an optional sign, then decimal digits with at most one
//! point among them: `12`, `-0.5`, `+3.`, `.25`. There has to be at least one
//! digit, and there may be at most eighteen, so that the digits without the
//! point and the power of ten under them both fit 64 bits.
use vstd::prelude::*;
use vstd::string::{StrSliceExecFns, StringExecFns};

verus! {

/// The most digits that a decimal fraction may have.
pub const MAX_DIGITS: usize = 18;

/// The value of a decimal digit, and `None` for any other character.
pub open spec fn digit_value(c: char) -> Option<nat> {
    if c == '0' {
        Some(0)
    } else if c == '1' {
        Some(1)
    } else if c == '2' {
        Some(2)
    } else if c == '3' {
        Some(3)
    } else if c == '4' {
        Some(4)
    } else if c == '5' {
        Some(5)
    } else if c == '6' {
        Some(6)
    } else if c == '7' {
        Some(7)
    } else if c == '8' {
        Some(8)
    } else if c == '9' {
        Some(9)
    } else {
        None
    }
}

/// The character of a decimal digit.
pub open spec fn digit_char(d: nat) -> char {
    if d == 0 {
        '0'
    } else if d == 1 {
        '1'
    } else if d == 2 {
        '2'
    } else if d == 3 {
        '3'
    } else if d == 4 {
        '4'
    } else if d == 5 {
        '5'
    } else if d == 6 {
        '6'
    } else if d == 7 {
        '7'
    } else if d == 8 {
        '8'
    } else {
        '9'
    }
}

/// The decimal digits of `n`, most significant first, without leading zeros.
pub open spec fn digits(n: nat) -> Seq<char>
    decreases n,
{
    if n < 10 {
        seq![digit_char(n)]
    } else {
        digits(n / 10).push(digit_char(n % 10))
    }
}

/// The text of a whole number: its digits, after a minus sign if it is
/// negative.
pub open spec fn whole_text(n: int) -> Seq<char> {
    if n < 0 {
        seq!['-'] + digits((-n) as nat)
    } else {
        digits(n as nat)
    }
}

/// What has been read of the digits of a decimal fraction.
pub struct Reading {
    /// The digits read so far as one whole number, the point left out.
    pub value: nat,
    /// Ten to the number of digits read after the point.
    pub scale: nat,
    /// The number of digits read.
    pub count: nat,
    /// Whether the point has been read.
    pub point: bool,
}

/// Nothing read yet.
pub open spec fn start() -> Reading {
    Reading { value: 0, scale: 1, count: 0, point: false }
}

/// The reading after one more character, and `None` if the character cannot
/// follow: a second point, a nineteenth digit, anything else.
pub open spec fn step(r: Reading, c: char) -> Option<Reading> {
    if c == '.' {
        if r.point {
            None
        } else {
            Some(Reading { point: true, ..r })
        }
    } else {
        match digit_value(c) {
            Some(d) => if r.count >= MAX_DIGITS {
                None
            } else {
                Some(
                    Reading {
                        value: r.value * 10 + d,
                        scale: if r.point {
                            r.scale * 10
                        } else {
                            r.scale
                        },
                        count: r.count + 1,
                        point: r.point,
                    },
                )
            },
            None => None,
        }
    }
}

/// The reading after the first `n` characters of `body`.
pub open spec fn read(body: Seq<char>, n: nat) -> Option<Reading>
    decreases n,
{
    if n == 0 {
        Some(start())
    } else {
        match read(body, (n - 1) as nat) {
            Some(r) => step(r, body[n - 1]),
            None => None,
        }
    }
}

/// Whether `text` begins with a sign.
pub open spec fn signed(text: Seq<char>) -> bool {
    text.len() > 0 && (text[0] == '-' || text[0] == '+')
}

/// The fraction that `text` denotes, as a numerator and a denominator that
/// is a power of ten; `None` if `text` is not a decimal fraction.
pub open spec fn decimal_spec(text: Seq<char>) -> Option<(int, int)> {
    let body = if signed(text) {
        text.skip(1)
    } else {
        text
    };
    match read(body, body.len()) {
        Some(r) => if r.count == 0 {
            None
        } else if signed(text) && text[0] == '-' {
            Some((-(r.value as int), r.scale as int))
        } else {
            Some((r.value as int, r.scale as int))
        },
        None => None,
    }
}

/// Ten to the `k`.
pub open spec fn pow10(k: nat) -> nat
    decreases k,
{
    if k == 0 {
        1
    } else {
        10 * pow10((k - 1) as nat)
    }
}

/// A reading of `n` characters has read at most `n` digits, its value is
/// below ten to their number, and its scale is a power of ten no larger
/// than that.
pub proof fn lemma_read_bounds(body: Seq<char>, n: nat)
    requires
        read(body, n) is Some,
    ensures
        read(body, n)->0.count <= n,
        read(body, n)->0.count <= MAX_DIGITS,
        read(body, n)->0.value < pow10(read(body, n)->0.count),
        0 < read(body, n)->0.scale <= pow10(read(body, n)->0.count),
    decreases n,
{
    if n > 0 {
        lemma_read_bounds(body, (n - 1) as nat);
    }
}

/// Ten to the eighteenth, the bound on what eighteen digits make.
pub proof fn lemma_pow10_bound(k: nat)
    requires
        k <= MAX_DIGITS,
    ensures
        pow10(k) <= 1_000_000_000_000_000_000,
    decreases MAX_DIGITS - k,
{
    if k < MAX_DIGITS {
        lemma_pow10_bound(k + 1);
    } else {
        reveal_with_fuel(pow10, 19);
    }
}

/// The value of a decimal digit.
fn digit_of(c: char) -> (r: Option<u8>)
    ensures
        match r {
            Some(d) => digit_value(c) == Some(d as nat),
            None => digit_value(c) is None,
        },
{
    if c == '0' {
        Some(0)
    } else if c == '1' {
        Some(1)
    } else if c == '2' {
        Some(2)
    } else if c == '3' {
        Some(3)
    } else if c == '4' {
        Some(4)
    } else if c == '5' {
        Some(5)
    } else if c == '6' {
        Some(6)
    } else if c == '7' {
        Some(7)
    } else if c == '8' {
        Some(8)
    } else if c == '9' {
        Some(9)
    } else {
        None
    }
}

/// Reads a decimal fraction: the digits as a whole number, negative after a
/// minus sign, and the power of ten that the point puts under them.
pub fn parse_decimal(text: &str) -> (r: Option<(i64, i64)>)
    ensures
        match r {
            Some((n, d)) => decimal_spec(text@) == Some((n as int, d as int)) && d > 0,
            None => decimal_spec(text@) is None,
        },
{
    let len = text.unicode_len();
    let mut negative = false;
    let mut first: usize = 0;
    if len > 0 {
        let sign = text.get_char(0);
        if sign == '-' || sign == '+' {
            negative = sign == '-';
            first = 1;
        }
    }
    let ghost body = if signed(text@) {
        text@.skip(1)
    } else {
        text@
    };
    let mut value: i64 = 0;
    let mut scale: i64 = 1;
    let mut count: usize = 0;
    let mut point = false;
    let mut i: usize = first;
    while i < len
        invariant
            first <= i <= len,
            len == text@.len(),
            first == if signed(text@) {
                1nat
            } else {
                0nat
            },
            body == if signed(text@) {
                text@.skip(1)
            } else {
                text@
            },
            read(body, (i - first) as nat) == Some(
                Reading { value: value as nat, scale: scale as nat, count: count as nat, point },
            ),
            0 <= value,
            0 < scale,
        decreases len - i,
    {
        let c = text.get_char(i);
        proof {
            lemma_read_bounds(body, (i - first) as nat);
            lemma_pow10_bound(count as nat);
            assert(body[i - first] == c);
        }
        let ghost before = Reading {
            value: value as nat,
            scale: scale as nat,
            count: count as nat,
            point,
        };
        if c == '.' {
            if point {
                proof {
                    lemma_read_fails(body, (i + 1 - first) as nat, body.len());
                }
                return None;
            }
            point = true;
        } else {
            match digit_of(c) {
                Some(d) => {
                    if count >= MAX_DIGITS {
                        proof {
                            lemma_read_fails(body, (i + 1 - first) as nat, body.len());
                        }
                        return None;
                    }
                    proof {
                        lemma_pow10_bound((count + 1) as nat);
                        assert(pow10((count + 1) as nat) == 10 * pow10(count as nat));
                    }
                    value = value * 10 + d as i64;
                    if point {
                        scale = scale * 10;
                    }
                    count = count + 1;
                },
                None => {
                    proof {
                        lemma_read_fails(body, (i + 1 - first) as nat, body.len());
                    }
                    return None;
                },
            }
        }
        i = i + 1;
    }
    if count == 0 {
        None
    } else if negative {
        Some((-value, scale))
    } else {
        Some((value, scale))
    }
}

/// Once a character cannot be read, no longer prefix can.
pub proof fn lemma_read_fails(body: Seq<char>, n: nat, m: nat)
    requires
        read(body, n) is None,
        n <= m,
    ensures
        read(body, m) is None,
    decreases m,
{
    if n < m {
        lemma_read_fails(body, n, (m - 1) as nat);
    }
}

/// The text of one decimal digit.
fn digit_str(d: u64) -> (r: &'static str)
    requires
        d < 10,
    ensures
        r@ == seq![digit_char(d as nat)],
{
    proof {
        reveal_strlit("0");
        reveal_strlit("1");
        reveal_strlit("2");
        reveal_strlit("3");
        reveal_strlit("4");
        reveal_strlit("5");
        reveal_strlit("6");
        reveal_strlit("7");
        reveal_strlit("8");
        reveal_strlit("9");
    }
    let r = if d == 0 {
        "0"
    } else if d == 1 {
        "1"
    } else if d == 2 {
        "2"
    } else if d == 3 {
        "3"
    } else if d == 4 {
        "4"
    } else if d == 5 {
        "5"
    } else if d == 6 {
        "6"
    } else if d == 7 {
        "7"
    } else if d == 8 {
        "8"
    } else {
        "9"
    };
    assert(r@ =~= seq![digit_char(d as nat)]);
    r
}

/// Appends the decimal digits of `n` to `out`.
pub fn push_digits(out: &mut String, n: u64)
    ensures
        final(out)@ == old(out)@ + digits(n as nat),
    decreases n,
{
    if n >= 10 {
        push_digits(out, n / 10);
    }
    out.append(digit_str(n % 10));
    assert(out@ =~= old(out)@ + digits(n as nat));
}

/// Appends the text of the whole number `n` to `out`.
pub fn push_whole(out: &mut String, n: i64)
    ensures
        final(out)@ == old(out)@ + whole_text(n as int),
{
    if n < 0 {
        proof {
            reveal_strlit("-");
        }
        out.append("-");
        let magnitude: u64 = if n == i64::MIN {
            0x8000_0000_0000_0000
        } else {
            (-n) as u64
        };
        push_digits(out, magnitude);
        assert(out@ =~= old(out)@ + whole_text(n as int));
    } else {
        push_digits(out, n as u64);
    }
}

} // verus!
