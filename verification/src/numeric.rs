use vstd::prelude::*;
use vstd::string::StrSliceExecFns;

verus! {

/// Whether `c` is one of the ASCII decimal digits.
pub open spec fn is_decimal_digit(c: char) -> bool {
    '0' <= c && c <= '9'
}

/// The value of a decimal digit.
pub open spec fn digit_value(c: char) -> nat {
    (c as nat - '0' as nat) as nat
}

/// Every character of `s` is a decimal digit.
pub open spec fn all_decimal_digits(s: Seq<char>) -> bool {
    forall|i: int| 0 <= i < s.len() ==> is_decimal_digit(#[trigger] s[i])
}

/// The number written in decimal by the digits `s`, most significant first.
pub open spec fn decimal_value(s: Seq<char>) -> nat
    decreases s.len(),
{
    if s.len() == 0 {
        0
    } else {
        decimal_value(s.drop_last()) * 10 + digit_value(s.last())
    }
}

/// The digits that follow an optional leading `+`.
pub open spec fn unsigned_digits(s: Seq<char>) -> Seq<char> {
    if s.len() > 0 && s[0] == '+' {
        s.drop_first()
    } else {
        s
    }
}

/// What `usize::from_str` gives for the text `s`: an optional `+`, then at
/// least one decimal digit and nothing else, naming a number that fits in a
/// `usize`.
pub open spec fn spec_parse_usize(s: Seq<char>) -> Option<usize> {
    let d = unsigned_digits(s);
    if d.len() > 0 && all_decimal_digits(d) && decimal_value(d) <= usize::MAX {
        Some(decimal_value(d) as usize)
    } else {
        None
    }
}

/// A longer run of digits never names a smaller number.
pub proof fn lemma_decimal_value_prefix(s: Seq<char>, i: int)
    requires
        0 <= i <= s.len(),
        all_decimal_digits(s),
    ensures
        decimal_value(s.take(i)) <= decimal_value(s),
    decreases s.len() - i,
{
    if i < s.len() {
        lemma_decimal_value_prefix(s, i + 1);
        assert(s.take(i + 1).drop_last() =~= s.take(i));
        assert(is_decimal_digit(s[i]));
    } else {
        assert(s.take(i) =~= s);
    }
}

/// Reads an unsigned decimal number the way `usize::from_str` does.
pub fn parse_usize(s: &str) -> (res: Option<usize>)
    ensures
        res == spec_parse_usize(s@),
{
    let len = s.unicode_len();
    let mut start: usize = 0;
    if len > 0 && s.get_char(0) == '+' {
        start = 1;
    }
    let ghost d = unsigned_digits(s@);
    assert(d =~= s@.subrange(start as int, len as int));
    if start == len {
        return None;
    }
    let mut value: usize = 0;
    let mut i: usize = start;
    while i < len
        invariant
            start <= i <= len,
            len == s@.len(),
            d =~= s@.subrange(start as int, len as int),
            d == unsigned_digits(s@),
            all_decimal_digits(d.take(i - start)),
            value == decimal_value(d.take(i - start)),
        decreases len - i,
    {
        let c = s.get_char(i);
        assert(c == d[i - start]);
        if c < '0' || c > '9' {
            assert(!is_decimal_digit(d[i - start]));
            return None;
        }
        let digit: usize = ((c as u32) - ('0' as u32)) as usize;
        assert(d.take(i + 1 - start).drop_last() =~= d.take(i - start));
        assert(all_decimal_digits(d.take(i + 1 - start)));
        assert(decimal_value(d.take(i + 1 - start)) == value * 10 + digit);
        match value.checked_mul(10) {
            Some(v10) => {
                match v10.checked_add(digit) {
                    Some(next) => {
                        value = next;
                    },
                    None => {
                        proof {
                            assert(v10 + digit > usize::MAX);
                            if all_decimal_digits(d) {
                                lemma_decimal_value_prefix(d, i + 1 - start);
                            }
                        }
                        return None;
                    },
                }
            },
            None => {
                proof {
                    if all_decimal_digits(d) {
                        lemma_decimal_value_prefix(d, i + 1 - start);
                    }
                }
                return None;
            },
        }
        i = i + 1;
    }
    assert(d.take(len - start) =~= d);
    Some(value)
}

} // verus!
