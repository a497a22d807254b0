//! The process whose memory is sampled.

use vstd::prelude::*;
use vstd::string::*;
use crate::sampler::SampleError;

verus! {

/// The numeric identifier of the process to read from. It is never negative.
#[derive(Clone, Copy, Debug, PartialEq, Eq)]
pub struct ProcessTarget {
    pid: i32,
}

/// Whether `c` is one of `0-9`.
pub open spec fn is_decimal_digit(c: char) -> bool {
    '0' <= c && c <= '9'
}

/// Whether every character of `s` is a decimal digit.
pub open spec fn all_decimal_digits(s: Seq<char>) -> bool {
    forall|i: int| 0 <= i < s.len() ==> is_decimal_digit(#[trigger] s[i])
}

/// The number that a run of decimal digits denotes. The empty run denotes
/// zero.
pub open spec fn decimal_value(s: Seq<char>) -> nat
    decreases s.len(),
{
    if s.len() == 0 {
        0
    } else {
        10 * decimal_value(s.drop_last()) + (s.last() as int - '0' as int) as nat
    }
}

/// Whether `s` opens with a sign.
pub open spec fn has_sign(s: Seq<char>) -> bool {
    s.len() > 0 && (s[0] == '+' || s[0] == '-')
}

/// The part of `s` after its sign, if it has one.
pub open spec fn unsigned_part(s: Seq<char>) -> Seq<char> {
    if has_sign(s) {
        s.skip(1)
    } else {
        s
    }
}

/// Whether `s` names a process: an optional sign, then one or more decimal
/// digits, denoting a number from 0 to `i32::MAX`. After a minus sign only
/// zero is left to name.
pub open spec fn is_target_text(s: Seq<char>) -> bool {
    &&& unsigned_part(s).len() > 0
    &&& all_decimal_digits(unsigned_part(s))
    &&& decimal_value(unsigned_part(s)) <= i32::MAX
    &&& s[0] == '-' ==> decimal_value(unsigned_part(s)) == 0
}

/// A longer run of decimal digits never denotes less than one of its
/// prefixes.
proof fn lemma_decimal_value_prefix(s: Seq<char>, k: int)
    requires
        0 <= k <= s.len(),
        all_decimal_digits(s),
    ensures
        decimal_value(s.take(k)) <= decimal_value(s),
    decreases s.len(),
{
    if k == s.len() {
        assert(s.take(k) =~= s);
    } else {
        assert(is_decimal_digit(s[s.len() - 1]));
        assert forall|i: int| 0 <= i < s.drop_last().len() implies is_decimal_digit(
            #[trigger] s.drop_last()[i],
        ) by {
            assert(s.drop_last()[i] == s[i]);
        }
        lemma_decimal_value_prefix(s.drop_last(), k);
        assert(s.drop_last().take(k) =~= s.take(k));
    }
}

impl ProcessTarget {
    #[verifier::type_invariant]
    spec fn never_negative(self) -> bool {
        self.pid >= 0
    }

    /// The process identifier as a number.
    pub closed spec fn id(self) -> int {
        self.pid as int
    }

    /// The process identifier, as the system takes it.
    pub fn pid(&self) -> (pid: i32)
        ensures
            pid == self.id(),
            pid >= 0,
    {
        proof {
            use_type_invariant(self);
        }
        self.pid
    }

    /// Reads a process identifier from text.
    ///
    /// Text that satisfies [`is_target_text`] gives the process it names;
    /// any other text is answered with [`SampleError::InvalidTarget`].
    pub fn parse(text: &str) -> (r: Result<ProcessTarget, SampleError>)
        ensures
            is_target_text(text@) ==> r is Ok && r->Ok_0.id() == decimal_value(
                unsigned_part(text@),
            ),
            !is_target_text(text@) ==> r == Err::<ProcessTarget, SampleError>(
                SampleError::InvalidTarget,
            ),
    {
        let n: usize = text.unicode_len();
        if n == 0 {
            return Err(SampleError::InvalidTarget);
        }
        let first = text.get_char(0);
        let start: usize = if first == '+' || first == '-' {
            1
        } else {
            0
        };
        if start == n {
            return Err(SampleError::InvalidTarget);
        }
        let ghost digits = unsigned_part(text@);
        let mut acc: u64 = 0;
        let mut i: usize = start;
        while i < n
            invariant
                start <= i <= n,
                n == text@.len(),
                digits == unsigned_part(text@),
                digits == text@.skip(start as int),
                all_decimal_digits(digits.take(i - start)),
                acc == decimal_value(digits.take(i - start)),
                acc <= i32::MAX,
            decreases n - i,
        {
            let c = text.get_char(i);
            let ghost seen = digits.take(i - start);
            let ghost next = digits.take(i - start + 1);
            proof {
                assert(digits[i - start] == c);
                assert(next.drop_last() =~= seen);
                assert(next.last() == c);
            }
            if !(c >= '0' && c <= '9') {
                return Err(SampleError::InvalidTarget);
            }
            let value: u64 = acc * 10 + (c as u32 - '0' as u32) as u64;
            if value > i32::MAX as u64 {
                proof {
                    if all_decimal_digits(digits) {
                        lemma_decimal_value_prefix(digits, i - start + 1);
                    }
                }
                return Err(SampleError::InvalidTarget);
            }
            acc = value;
            proof {
                assert forall|j: int| 0 <= j < next.len() implies is_decimal_digit(
                    #[trigger] next[j],
                ) by {
                    if j < seen.len() {
                        assert(next[j] == seen[j]);
                    }
                }
            }
            i = i + 1;
        }
        proof {
            assert(digits.take(n - start) =~= digits);
        }
        if first == '-' && acc != 0 {
            return Err(SampleError::InvalidTarget);
        }
        Ok(ProcessTarget { pid: acc as i32 })
    }
}

} // verus!
