//! Resolving the listening port from the environment's value.
//!
//! The environment may hand the service no value, or one that is not a port
//! number at all; either way the service must come up on the default port
//! rather than fail. The grammar accepted here is the one `u16` parsing
//! accepts: an optional leading `+`, then one or more decimal digits, with a
//! value of at most 65535.

use vstd::prelude::*;
use vstd::string::*;

verus! {

/// Whether `c` is a decimal digit.
pub open spec fn is_digit(c: char) -> bool {
    48 <= c as u32 <= 57
}

/// The value of the digit `c`.
pub open spec fn digit_val(c: char) -> int {
    c as u32 - 48
}

/// The value of a digit string read in base ten.
pub open spec fn digits_val(s: Seq<char>) -> int
    decreases s.len(),
{
    if s.len() == 0 {
        0
    } else {
        digits_val(s.drop_last()) * 10 + digit_val(s.last())
    }
}

/// Whether every character of `s` is a decimal digit.
pub open spec fn all_digits(s: Seq<char>) -> bool {
    forall|i: int| 0 <= i < s.len() ==> is_digit(s[i])
}

/// The digits of a number written with an optional leading `+`.
pub open spec fn number_digits(s: Seq<char>) -> Seq<char> {
    if s.len() > 0 && s[0] == '+' {
        s.drop_first()
    } else {
        s
    }
}

/// Whether `s` spells a port number: after the optional sign, at least one
/// character, all of them digits, spelling a value of at most 65535.
pub open spec fn spec_is_port(s: Seq<char>) -> bool {
    let d = number_digits(s);
    d.len() > 0 && all_digits(d) && digits_val(d) <= 65535
}

/// The port number `s` spells.
pub open spec fn spec_port_value(s: Seq<char>) -> int {
    digits_val(number_digits(s))
}

/// A digit string's value is never negative.
proof fn lemma_digits_val_nonneg(s: Seq<char>)
    requires
        all_digits(s),
    ensures
        digits_val(s) >= 0,
    decreases s.len(),
{
    if s.len() > 0 {
        assert(all_digits(s.drop_last()));
        lemma_digits_val_nonneg(s.drop_last());
    }
}

/// Reading further digits never shrinks the value: the value of a prefix is a
/// lower bound for the value of the whole digit string.
proof fn lemma_digits_val_prefix(s: Seq<char>, i: int)
    requires
        all_digits(s),
        0 <= i <= s.len(),
    ensures
        digits_val(s.subrange(0, i)) <= digits_val(s),
    decreases s.len() - i,
{
    if i < s.len() {
        let longer = s.subrange(0, i + 1);
        assert(longer.drop_last() =~= s.subrange(0, i));
        assert(all_digits(s.subrange(0, i)));
        lemma_digits_val_nonneg(s.subrange(0, i));
        assert(digits_val(longer) == digits_val(s.subrange(0, i)) * 10 + digit_val(s[i]));
        lemma_digits_val_prefix(s, i + 1);
    } else {
        assert(s.subrange(0, i) =~= s);
    }
}

/// Read the digits of `s` from position `from` on as a port number.
fn parse_digits(s: &str, from: usize) -> (r: Option<u16>)
    requires
        from <= s@.len(),
    ensures
        (r is Some <==> {
            let d = s@.skip(from as int);
            d.len() > 0 && all_digits(d) && digits_val(d) <= 65535
        }),
        r matches Some(v) ==> v == digits_val(s@.skip(from as int)),
{
    let n = s.unicode_len();
    if from == n {
        return None;
    }
    let ghost d = s@.skip(from as int);
    let mut acc: u32 = 0;
    let mut i: usize = from;
    while i < n
        invariant
            n == s@.len(),
            from <= i <= n,
            d == s@.skip(from as int),
            all_digits(d.subrange(0, i - from)),
            acc == digits_val(d.subrange(0, i - from)),
            acc <= 65535,
        decreases n - i,
    {
        let c = s.get_char(i);
        let v = c as u32;
        if v < 48 || v > 57 {
            proof {
                assert(d[i - from] == s@[i as int]);
                assert(!is_digit(d[i - from]));
            }
            return None;
        }
        proof {
            assert(d.subrange(0, i + 1 - from).drop_last() =~= d.subrange(0, i - from));
            assert(d.subrange(0, i + 1 - from).last() == s@[i as int]);
        }
        acc = acc * 10 + (v - 48);
        if acc > 65535 {
            proof {
                assert(all_digits(d.subrange(0, i + 1 - from)));
                if all_digits(d) {
                    lemma_digits_val_prefix(d, i + 1 - from);
                }
            }
            return None;
        }
        i = i + 1;
    }
    proof {
        assert(d.subrange(0, n - from) =~= d);
    }
    Some(acc as u16)
}

/// Read `s` as a port number; `None` when it is not one.
pub fn parse_port(s: &str) -> (r: Option<u16>)
    ensures
        r is Some <==> spec_is_port(s@),
        r matches Some(v) ==> v == spec_port_value(s@),
{
    let n = s.unicode_len();
    if n > 0 && s.get_char(0) == '+' {
        proof {
            assert(number_digits(s@) =~= s@.skip(1));
        }
        parse_digits(s, 1)
    } else {
        proof {
            assert(number_digits(s@) =~= s@.skip(0));
        }
        parse_digits(s, 0)
    }
}

/// The port the service listens on, given what the environment held: the
/// value spelled there when it is a port number, and [`crate::DEFAULT_PORT`]
/// when the variable was absent or unusable.
pub fn resolve_port(env_value: Option<&str>) -> (r: u16)
    ensures
        env_value matches Some(s) ==> r == (if spec_is_port(s@) {
            spec_port_value(s@)
        } else {
            crate::DEFAULT_PORT as int
        }),
        env_value is None ==> r == crate::DEFAULT_PORT,
{
    match env_value {
        Some(s) => match parse_port(s) {
            Some(p) => p,
            None => crate::DEFAULT_PORT,
        },
        None => crate::DEFAULT_PORT,
    }
}

} // verus!
