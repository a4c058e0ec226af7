//! Validation of numeric count options.
//!
//! A count option is valid exactly when it is a nonempty string of
//! decimal digits whose value is strictly positive and fits the
//! machine's word size. A rejected string is returned verbatim as the
//! error, so callers can display exactly what was refused.

use vstd::prelude::*;
use vstd::string::StrSliceExecFns;
use vstd::string::StringExecFns;

verus! {

/// A decimal digit character.
pub open spec fn is_digit(c: char) -> bool {
    48 <= c as u32 <= 57
}

/// Numeric value of a digit character; meaningful only for digits.
pub open spec fn digit_val(c: char) -> int {
    c as u32 - 48
}

/// Every character of the string is a decimal digit.
pub open spec fn all_digits(s: Seq<char>) -> bool {
    forall|i: int| 0 <= i < s.len() ==> is_digit(#[trigger] s[i])
}

/// Base-10 value of a digit string, most significant digit first.
pub open spec fn count_value(s: Seq<char>) -> int
    decreases s.len(),
{
    if s.len() == 0 {
        0
    } else {
        count_value(s.drop_last()) * 10 + digit_val(s.last())
    }
}

/// A string is a valid count iff it is a nonempty run of decimal
/// digits denoting a value that is strictly positive and representable.
pub open spec fn valid_count(s: Seq<char>) -> bool {
    &&& s.len() > 0
    &&& all_digits(s)
    &&& 0 < count_value(s) <= usize::MAX
}

/// Once a prefix's value is large, appending further characters can
/// only keep the value at least as large: each step multiplies by ten
/// and adds a per-character offset no smaller than -48.
proof fn lemma_count_value_grows(s: Seq<char>, j: int)
    requires
        0 <= j <= s.len(),
        count_value(s.take(j)) > 100,
    ensures
        count_value(s) >= count_value(s.take(j)),
    decreases s.len() - j,
{
    if j < s.len() {
        let v = count_value(s.take(j));
        assert(s.take(j + 1).drop_last() =~= s.take(j));
        assert(s.take(j + 1).last() == s[j]);
        assert(count_value(s.take(j + 1)) == v * 10 + digit_val(s[j]));
        assert(digit_val(s[j]) >= -48);
        lemma_count_value_grows(s, j + 1);
    } else {
        assert(s.take(j) =~= s);
    }
}

/// Checks that a string is a valid positive count and yields its value;
/// a string that is not is returned unchanged as the error.
pub fn parse_positive_int(val: &str) -> (r: Result<usize, String>)
    ensures
        match r {
            Ok(n) => valid_count(val@) && n as int == count_value(val@),
            Err(e) => !valid_count(val@) && e@ == val@,
        },
{
    let len = val.unicode_len();
    if len == 0 {
        return Err(String::from_str(val));
    }
    let mut acc: usize = 0;
    let mut i: usize = 0;
    while i < len
        invariant
            0 <= i <= len,
            len == val@.len(),
            forall|j: int| 0 <= j < i ==> is_digit(#[trigger] val@[j]),
            acc as int == count_value(val@.take(i as int)),
        decreases len - i,
    {
        let c: char = val.get_char(i);
        let cv: u32 = c as u32;
        proof {
            assert(val@.take(i as int + 1).drop_last() =~= val@.take(i as int));
            assert(val@.take(i as int + 1).last() == val@[i as int]);
        }
        if cv < 48 || cv > 57 {
            assert(!is_digit(val@[i as int]));
            return Err(String::from_str(val));
        }
        let d: usize = (cv - 48) as usize;
        if acc > (usize::MAX - d) / 10 {
            proof {
                vstd::arithmetic::div_mod::lemma_fundamental_div_mod(
                    usize::MAX - d as int,
                    10,
                );
                assert(count_value(val@.take(i as int + 1)) > usize::MAX);
                lemma_count_value_grows(val@, i as int + 1);
            }
            return Err(String::from_str(val));
        }
        proof {
            vstd::arithmetic::div_mod::lemma_fundamental_div_mod(usize::MAX - d as int, 10);
        }
        acc = acc * 10 + d;
        i += 1;
    }
    proof {
        assert(val@.take(len as int) =~= val@);
    }
    if acc == 0 {
        Err(String::from_str(val))
    } else {
        Ok(acc)
    }
}

} // verus!
