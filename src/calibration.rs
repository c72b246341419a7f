//! The two calibration fields taken from the rows of a tabular source.

use vstd::prelude::*;
use crate::config::unsigned_digits;

verus! {

/// Why no calibration could be had.
#[derive(Debug, Clone, Copy, PartialEq, Eq, Structural)]
pub enum CalibrationError {
    /// The source could not be read.
    Unreadable,
    /// The source has fewer than two rows.
    TooFewRows,
    /// The row with this index has no first field.
    MissingField(usize),
    /// A field is not a decimal number.
    NotNumeric,
    /// The variance is not greater than zero.
    NonPositiveVariance,
}

/// The text of the two calibration fields, before they are read as numbers.
#[derive(Debug, Clone, PartialEq, Eq)]
pub struct CalibrationText {
    /// First field of the first row.
    pub variance: String,
    /// First field of the second row.
    pub mean: String,
}

/// The rows as sequences of field texts.
pub open spec fn rows_view(rows: Seq<Vec<String>>) -> Seq<Seq<Seq<char>>> {
    rows.map_values(|row: Vec<String>| row@.map_values(|f: String| f@))
}

/// Whether the text, after an optional `+`, holds only `0` digits and at most
/// one `.`, with at least one digit: a way of writing zero.
pub open spec fn is_zero_text(s: Seq<char>) -> bool {
    let u = unsigned_digits(s);
    &&& forall|k: int| 0 <= k < u.len() ==> (#[trigger] u[k] == '0' || u[k] == '.')
    &&& forall|k1: int, k2: int|
        0 <= k1 < k2 < u.len() ==> !(#[trigger] u[k1] == '.' && #[trigger] u[k2] == '.')
    &&& exists|k: int| 0 <= k < u.len() && #[trigger] u[k] == '0'
}

/// Whether a variance text can only denote a value that is not positive:
/// it starts with `-`, or it writes zero.
pub open spec fn plainly_not_positive(s: Seq<char>) -> bool {
    (s.len() > 0 && s[0] == '-') || is_zero_text(s)
}

/// The error for rows that do not hold both fields, or whose variance field is
/// plainly not positive, if any.
pub open spec fn rows_error(rows: Seq<Seq<Seq<char>>>) -> Option<CalibrationError> {
    if rows.len() < 2 {
        Some(CalibrationError::TooFewRows)
    } else if rows[0].len() == 0 {
        Some(CalibrationError::MissingField(0))
    } else if rows[1].len() == 0 {
        Some(CalibrationError::MissingField(1))
    } else if plainly_not_positive(rows[0][0]) {
        Some(CalibrationError::NonPositiveVariance)
    } else {
        None
    }
}

/// Decides `plainly_not_positive` for one field.
fn is_plainly_not_positive(text: &str) -> (r: bool)
    ensures
        r == plainly_not_positive(text@),
{
    let n = text.unicode_len();
    let ghost s = text@;
    if n > 0 && text.get_char(0) == '-' {
        return true;
    }
    let mut i: usize = 0;
    if n > 0 && text.get_char(0) == '+' {
        i = 1;
    }
    let start = i;
    let ghost u = unsigned_digits(s);
    let mut seen_dot = false;
    let mut seen_zero = false;
    while i < n
        invariant
            n == s.len(),
            s == text@,
            !(s.len() > 0 && s[0] == '-'),
            u == unsigned_digits(s),
            u == s.subrange(start as int, s.len() as int),
            start <= i <= n,
            forall|k: int| 0 <= k < i - start ==> (#[trigger] u[k] == '0' || u[k] == '.'),
            forall|k1: int, k2: int|
                0 <= k1 < k2 < i - start ==> !(#[trigger] u[k1] == '.' && #[trigger] u[k2] == '.'),
            seen_dot <==> exists|k: int| 0 <= k < i - start && #[trigger] u[k] == '.',
            seen_zero <==> exists|k: int| 0 <= k < i - start && #[trigger] u[k] == '0',
        decreases n - i,
    {
        let c = text.get_char(i);
        let ghost j = i - start;
        assert(u[j] == c);
        if c == '0' {
            seen_zero = true;
        } else if c == '.' {
            if seen_dot {
                let ghost k1 = choose|k: int| 0 <= k < i - start && #[trigger] u[k] == '.';
                assert(0 <= k1 < j < u.len() && u[k1] == '.' && u[j] == '.');
                return false;
            }
            seen_dot = true;
        } else {
            assert(!(u[j] == '0' || u[j] == '.'));
            return false;
        }
        i = i + 1;
    }
    seen_zero
}

/// Takes the first field of the first row as the variance and the first field
/// of the second row as the mean; further rows and fields are ignored. A
/// variance that starts with `-` or writes zero is refused here; what else the
/// field may hold is left to the reading of the numbers.
pub fn calibration_fields(rows: &Vec<Vec<String>>) -> (r: Result<CalibrationText, CalibrationError>)
    ensures
        match r {
            Ok(c) => {
                let v = rows_view(rows@);
                &&& rows_error(v) is None
                &&& c.variance@ == v[0][0]
                &&& c.mean@ == v[1][0]
            },
            Err(e) => rows_error(rows_view(rows@)) == Some(e),
        },
{
    if rows.len() < 2 {
        return Err(CalibrationError::TooFewRows);
    }
    if rows[0].len() == 0 {
        return Err(CalibrationError::MissingField(0));
    }
    if rows[1].len() == 0 {
        return Err(CalibrationError::MissingField(1));
    }
    if is_plainly_not_positive(rows[0][0].as_str()) {
        return Err(CalibrationError::NonPositiveVariance);
    }
    let variance = rows[0][0].clone();
    let mean = rows[1][0].clone();
    Ok(CalibrationText { variance, mean })
}

} // verus!
