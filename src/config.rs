//! Configuration values read from the command line that the core checks itself.

use vstd::prelude::*;

verus! {

/// A command-line value that cannot be used.
#[derive(Debug, Clone, Copy, PartialEq, Eq, Structural)]
pub enum ConfigError {
    /// The baud rate is not an unsigned 32-bit decimal number.
    InvalidBaudRate,
}

pub open spec fn is_digit(c: char) -> bool {
    '0' as u32 <= c as u32 && c as u32 <= '9' as u32
}

pub open spec fn all_digits(s: Seq<char>) -> bool {
    forall|i: int| 0 <= i < s.len() ==> is_digit(#[trigger] s[i])
}

/// The number that a string of decimal digits denotes.
pub open spec fn decimal_value(s: Seq<char>) -> int
    decreases s.len(),
{
    if s.len() == 0 {
        0
    } else {
        decimal_value(s.drop_last()) * 10 + (s.last() as u32 - '0' as u32)
    }
}

/// The digits of an unsigned number, its optional leading `+` left out.
pub open spec fn unsigned_digits(s: Seq<char>) -> Seq<char> {
    if s.len() > 0 && s[0] == '+' {
        s.drop_first()
    } else {
        s
    }
}

/// Whether the text is an unsigned decimal number that fits in 32 bits.
pub open spec fn is_u32_text(s: Seq<char>) -> bool {
    let d = unsigned_digits(s);
    &&& d.len() > 0
    &&& all_digits(d)
    &&& decimal_value(d) <= u32::MAX
}

proof fn lemma_decimal_value_grows(d: Seq<char>, i: int, j: int)
    requires
        all_digits(d),
        0 <= i <= j <= d.len(),
    ensures
        0 <= decimal_value(d.subrange(0, i)) <= decimal_value(d.subrange(0, j)),
    decreases j,
{
    if j > 0 {
        assert(d.subrange(0, j).drop_last() =~= d.subrange(0, j - 1));
        assert(is_digit(d[j - 1]));
        if i < j {
            lemma_decimal_value_grows(d, i, j - 1);
        } else {
            lemma_decimal_value_grows(d, 0, j - 1);
        }
    } else {
        assert(d.subrange(0, 0).len() == 0);
    }
}

/// Reads a baud rate: an optional `+` and then decimal digits whose value fits
/// in a `u32`; anything else is refused.
pub fn parse_baud(text: &str) -> (r: Result<u32, ConfigError>)
    ensures
        match r {
            Ok(v) => is_u32_text(text@) && v == decimal_value(unsigned_digits(text@)),
            Err(e) => !is_u32_text(text@) && e == ConfigError::InvalidBaudRate,
        },
{
    let n = text.unicode_len();
    let ghost s = text@;
    let ghost d = unsigned_digits(s);
    let mut i: usize = 0;
    if n > 0 && text.get_char(0) == '+' {
        i = 1;
    }
    let start = i;
    if start == n {
        return Err(ConfigError::InvalidBaudRate);
    }
    let mut acc: u64 = 0;
    while i < n
        invariant
            n == s.len(),
            s == text@,
            d == unsigned_digits(s),
            start <= i <= n,
            d == s.subrange(start as int, s.len() as int),
            all_digits(d.subrange(0, i - start)),
            acc == decimal_value(d.subrange(0, i - start)),
            acc <= u32::MAX,
        decreases n - i,
    {
        let c = text.get_char(i);
        let k = (i - start) as usize;
        assert(d[k as int] == c);
        if (c as u32) < ('0' as u32) || (c as u32) > ('9' as u32) {
            assert(!is_digit(d[k as int]));
            return Err(ConfigError::InvalidBaudRate);
        }
        let ghost prev = d.subrange(0, k as int);
        let ghost next = d.subrange(0, k + 1);
        assert(next.drop_last() =~= prev);
        assert(all_digits(next));
        acc = acc * 10 + (c as u32 - '0' as u32) as u64;
        i = i + 1;
        if acc > u32::MAX as u64 {
            proof {
                if all_digits(d) {
                    lemma_decimal_value_grows(d, k + 1, d.len() as int);
                    assert(d.subrange(0, d.len() as int) =~= d);
                }
            }
            return Err(ConfigError::InvalidBaudRate);
        }
    }
    assert(d.subrange(0, d.len() as int) =~= d);
    Ok(acc as u32)
}

} // verus!
