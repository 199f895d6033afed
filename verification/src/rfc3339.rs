//! Recognising RFC 3339 timestamps.
//!
//! The liveness report carries the instant it was produced as an RFC 3339
//! string. The grammar accepted here is the profile those strings follow:
//! `YYYY-MM-DDThh:mm:ss`, an optional fraction of a second, then either `Z`
//! or a `+hh:mm` / `-hh:mm` offset, with each field in range. The letters
//! `T` and `Z` may be lower case, as RFC 3339 allows.

use vstd::prelude::*;
use vstd::string::*;

use crate::port::digit_val;
use crate::port::is_digit;

verus! {

/// The value of the two digits of `s` at positions `i` and `i + 1`.
pub open spec fn two_digits(s: Seq<char>, i: int) -> int {
    digit_val(s[i]) * 10 + digit_val(s[i + 1])
}

/// Whether `s` opens with a full date and time, `YYYY-MM-DDThh:mm:ss`: the
/// punctuation in place, digits everywhere else, and every field in range
/// (month 1–12, day 1–31, hour at most 23, minute at most 59, second at most
/// 60 to admit a leap second).
pub open spec fn valid_date_time(s: Seq<char>) -> bool {
    &&& s.len() >= 19
    &&& is_digit(s[0]) && is_digit(s[1]) && is_digit(s[2]) && is_digit(s[3])
    &&& s[4] == '-'
    &&& is_digit(s[5]) && is_digit(s[6])
    &&& s[7] == '-'
    &&& is_digit(s[8]) && is_digit(s[9])
    &&& (s[10] == 'T' || s[10] == 't')
    &&& is_digit(s[11]) && is_digit(s[12])
    &&& s[13] == ':'
    &&& is_digit(s[14]) && is_digit(s[15])
    &&& s[16] == ':'
    &&& is_digit(s[17]) && is_digit(s[18])
    &&& 1 <= two_digits(s, 5) <= 12
    &&& 1 <= two_digits(s, 8) <= 31
    &&& two_digits(s, 11) <= 23
    &&& two_digits(s, 14) <= 59
    &&& two_digits(s, 17) <= 60
}

/// Whether `s` is, whole, a numeric UTC offset or the letter `Z`: either that
/// one letter, or a sign and `hh:mm` with the hour at most 23 and the minute
/// at most 59.
pub open spec fn valid_offset(s: Seq<char>) -> bool {
    ||| (s.len() == 1 && (s[0] == 'Z' || s[0] == 'z'))
    ||| (s.len() == 6 && (s[0] == '+' || s[0] == '-') && is_digit(s[1]) && is_digit(s[2]) && s[3]
        == ':' && is_digit(s[4]) && is_digit(s[5]) && two_digits(s, 1) <= 23 && two_digits(s, 4)
        <= 59)
}

/// Whether `s` is some run of digits — possibly none — followed by a valid
/// offset.
pub open spec fn digits_then_offset(s: Seq<char>) -> bool
    decreases s.len(),
{
    valid_offset(s) || (s.len() > 0 && is_digit(s[0]) && digits_then_offset(s.drop_first()))
}

/// Whether `s` is what may follow the seconds: an optional fraction — a dot
/// and at least one digit — and then a valid offset.
pub open spec fn valid_suffix(s: Seq<char>) -> bool {
    if s.len() >= 2 && s[0] == '.' && is_digit(s[1]) {
        digits_then_offset(s.drop_first())
    } else {
        valid_offset(s)
    }
}

/// Whether `s` is an RFC 3339 timestamp of the profile described above.
pub open spec fn spec_is_rfc3339(s: Seq<char>) -> bool {
    valid_date_time(s) && valid_suffix(s.skip(19))
}

/// Whether `c` is a decimal digit.
fn is_digit_char(c: char) -> (r: bool)
    ensures
        r == is_digit(c),
{
    let v = c as u32;
    48 <= v && v <= 57
}

/// Whether the characters of `s` at the positions of `from..to` are all
/// decimal digits.
fn digits_in_range(s: &str, from: usize, to: usize) -> (r: bool)
    requires
        from <= to <= s@.len(),
    ensures
        r == (forall|k: int| from <= k < to ==> is_digit(s@[k])),
{
    let mut i: usize = from;
    while i < to
        invariant
            from <= i <= to <= s@.len(),
            forall|k: int| from <= k < i ==> is_digit(s@[k]),
        decreases to - i,
    {
        if !is_digit_char(s.get_char(i)) {
            return false;
        }
        i = i + 1;
    }
    true
}

/// The value of the two digits of `s` at positions `i` and `i + 1`.
fn two_digit_val(s: &str, i: usize) -> (r: u32)
    requires
        i + 1 < s@.len() <= usize::MAX,
        is_digit(s@[i as int]),
        is_digit(s@[i as int + 1]),
    ensures
        r == two_digits(s@, i as int),
{
    let a = s.get_char(i) as u32;
    let b = s.get_char(i + 1) as u32;
    (a - 48) * 10 + (b - 48)
}

/// Whether the characters of `s` from position `j` to its end form a valid
/// offset.
fn check_offset(s: &str, j: usize) -> (r: bool)
    requires
        j <= s@.len(),
    ensures
        r == valid_offset(s@.skip(j as int)),
{
    let ghost t = s@.skip(j as int);
    let n = s.unicode_len();
    let d = n - j;
    if d == 1 {
        let c = s.get_char(j);
        proof {
            assert(t[0] == s@[j as int]);
        }
        c == 'Z' || c == 'z'
    } else if d == 6 {
        proof {
            assert(t[0] == s@[j as int]);
            assert(t[1] == s@[j as int + 1]);
            assert(t[2] == s@[j as int + 2]);
            assert(t[3] == s@[j as int + 3]);
            assert(t[4] == s@[j as int + 4]);
            assert(t[5] == s@[j as int + 5]);
        }
        let c0 = s.get_char(j);
        if !(c0 == '+' || c0 == '-') {
            return false;
        }
        if s.get_char(j + 3) != ':' {
            return false;
        }
        if !(is_digit_char(s.get_char(j + 1)) && is_digit_char(s.get_char(j + 2))
            && is_digit_char(s.get_char(j + 4)) && is_digit_char(s.get_char(j + 5))) {
            return false;
        }
        let hours = two_digit_val(s, j + 1);
        let minutes = two_digit_val(s, j + 4);
        proof {
            assert(two_digits(t, 1) == two_digits(s@, j as int + 1));
            assert(two_digits(t, 4) == two_digits(s@, j as int + 4));
        }
        hours <= 23 && minutes <= 59
    } else {
        false
    }
}

/// Whether `s` is an RFC 3339 timestamp: the executable face of
/// [`spec_is_rfc3339`].
pub fn is_rfc3339_timestamp(s: &str) -> (r: bool)
    ensures
        r == spec_is_rfc3339(s@),
{
    let n = s.unicode_len();
    if n < 19 {
        return false;
    }
    if !(digits_in_range(s, 0, 4) && digits_in_range(s, 5, 7) && digits_in_range(s, 8, 10)
        && digits_in_range(s, 11, 13) && digits_in_range(s, 14, 16) && digits_in_range(s, 17, 19)) {
        return false;
    }
    if s.get_char(4) != '-' || s.get_char(7) != '-' {
        return false;
    }
    let sep = s.get_char(10);
    if !(sep == 'T' || sep == 't') {
        return false;
    }
    if s.get_char(13) != ':' || s.get_char(16) != ':' {
        return false;
    }
    let month = two_digit_val(s, 5);
    let day = two_digit_val(s, 8);
    let hour = two_digit_val(s, 11);
    let minute = two_digit_val(s, 14);
    let second = two_digit_val(s, 17);
    if month < 1 || month > 12 || day < 1 || day > 31 || hour > 23 || minute > 59 || second > 60 {
        return false;
    }
    proof {
        assert(valid_date_time(s@));
    }
    let ghost t = s@.skip(19);
    proof {
        assert(t.len() == s@.len() - 19);
    }
    if n - 19 >= 2 && s.get_char(19) == '.' && is_digit_char(s.get_char(20)) {
        proof {
            assert(t[0] == s@[19]);
            assert(t[1] == s@[20]);
            assert(t.drop_first() =~= s@.skip(20));
        }
        let mut i: usize = 20;
        while i < n && is_digit_char(s.get_char(i))
            invariant
                n == s@.len(),
                20 <= i <= n,
                digits_then_offset(s@.skip(20)) == digits_then_offset(s@.skip(i as int)),
            decreases n - i,
        {
            proof {
                let u = s@.skip(i as int);
                assert(u[0] == s@[i as int]);
                assert(!valid_offset(u));
                assert(u.drop_first() =~= s@.skip(i as int + 1));
            }
            i = i + 1;
        }
        if i == n {
            proof {
                assert(s@.skip(n as int).len() == 0);
                assert(!digits_then_offset(s@.skip(n as int)));
            }
            return false;
        }
        proof {
            let u = s@.skip(i as int);
            assert(u[0] == s@[i as int]);
            assert(digits_then_offset(u) == valid_offset(u));
        }
        check_offset(s, i)
    } else {
        proof {
            if t.len() >= 2 {
                assert(t[0] == s@[19]);
                assert(t[1] == s@[20]);
            }
        }
        check_offset(s, 19)
    }
}

} // verus!
