//! Decimal integer parsing for protocol tokens, with exact specifications:
//! a token parses if and only if it is an optional sign followed by at least
//! one digit and its value fits the target type.

use vstd::prelude::*;

verus! {

/// `c` is a decimal digit.
pub open spec fn is_digit(c: char) -> bool {
    '0' as int <= c as int <= '9' as int
}

/// The numeric value of the digit `c`.
pub open spec fn digit_val(c: char) -> int {
    c as int - '0' as int
}

/// Every character of `s` is a decimal digit.
pub open spec fn all_digits(s: Seq<char>) -> bool {
    forall|i: int| 0 <= i < s.len() ==> is_digit(#[trigger] s[i])
}

/// The value of `s` read as a decimal numeral.
pub open spec fn dec_val(s: Seq<char>) -> int
    decreases s.len(),
{
    if s.len() == 0 {
        0
    } else {
        dec_val(s.drop_last()) * 10 + digit_val(s.last())
    }
}

/// The digits of an unsigned token: everything after an optional leading `+`.
pub open spec fn unsigned_body(s: Seq<char>) -> Seq<char> {
    if s.len() > 0 && s[0] == '+' {
        s.skip(1)
    } else {
        s
    }
}

/// The digits of a signed token: everything after an optional leading sign.
pub open spec fn signed_body(s: Seq<char>) -> Seq<char> {
    if s.len() > 0 && (s[0] == '+' || s[0] == '-') {
        s.skip(1)
    } else {
        s
    }
}

/// What parsing `s` as a `u64` yields.
pub open spec fn u64_from_chars(s: Seq<char>) -> Option<u64> {
    let body = unsigned_body(s);
    if body.len() > 0 && all_digits(body) && dec_val(body) <= u64::MAX {
        Some(dec_val(body) as u64)
    } else {
        None
    }
}

/// What parsing `s` as a `usize` yields.
pub open spec fn usize_from_chars(s: Seq<char>) -> Option<usize> {
    let body = unsigned_body(s);
    if body.len() > 0 && all_digits(body) && dec_val(body) <= usize::MAX {
        Some(dec_val(body) as usize)
    } else {
        None
    }
}

/// What parsing `s` as an `i32` yields.
pub open spec fn i32_from_chars(s: Seq<char>) -> Option<i32> {
    let body = signed_body(s);
    let neg = s.len() > 0 && s[0] == '-';
    if body.len() > 0 && all_digits(body) {
        let v = if neg {
            -dec_val(body)
        } else {
            dec_val(body)
        };
        if i32::MIN <= v <= i32::MAX {
            Some(v as i32)
        } else {
            None
        }
    } else {
        None
    }
}

proof fn lemma_dec_val_nonneg(s: Seq<char>)
    requires
        all_digits(s),
    ensures
        dec_val(s) >= 0,
    decreases s.len(),
{
    if s.len() > 0 {
        assert(all_digits(s.drop_last())) by {
            assert(forall|i: int|
                0 <= i < s.drop_last().len() ==> s.drop_last()[i] == #[trigger] s[i]);
        }
        lemma_dec_val_nonneg(s.drop_last());
    }
}

/// Appending digits can only increase the value of a numeral.
proof fn lemma_dec_val_prefix_le(s: Seq<char>, j: int)
    requires
        all_digits(s),
        0 <= j <= s.len(),
    ensures
        dec_val(s.take(j)) <= dec_val(s),
    decreases s.len(),
{
    if j == s.len() {
        assert(s.take(j) =~= s);
    } else {
        assert(all_digits(s.drop_last())) by {
            assert(forall|i: int|
                0 <= i < s.drop_last().len() ==> s.drop_last()[i] == #[trigger] s[i]);
        }
        assert(s.take(j) =~= s.drop_last().take(j));
        lemma_dec_val_prefix_le(s.drop_last(), j);
        lemma_dec_val_nonneg(s.drop_last());
    }
}

/// The character of the decimal digit `d`.
pub open spec fn digit_char(d: nat) -> char {
    "0123456789"@[d as int]
}

/// The decimal rendering of `n`, most significant digit first.
pub open spec fn dec_str(n: nat) -> Seq<char>
    decreases n,
{
    if n < 10 {
        seq![digit_char(n)]
    } else {
        dec_str(n / 10).push(digit_char(n % 10))
    }
}

/// Append the decimal rendering of `n` to `s`.
pub fn append_dec_u64(s: &mut String, n: u64)
    ensures
        final(s)@ == old(s)@ + dec_str(n as nat),
    decreases n,
{
    let digits = "0123456789";
    proof {
        reveal_strlit("0123456789");
    }
    if n >= 10 {
        append_dec_u64(s, n / 10);
    }
    let d = (n % 10) as usize;
    let ds = digits.substring_char(d, d + 1);
    s.append(ds);
    proof {
        assert(ds@ =~= seq![digit_char((n % 10) as nat)]);
        if n < 10 {
            assert(dec_str(n as nat) == seq![digit_char(n as nat)]);
            assert(final(s)@ =~= old(s)@ + dec_str(n as nat));
        } else {
            assert(final(s)@ =~= old(s)@ + dec_str(n as nat));
        }
    }
}

/// Parse the digits of `s` from index `start` on as a decimal `u64`.
/// Returns the value exactly when the digits are well formed and fit.
fn parse_digits_u64(s: &str, start: usize) -> (r: Option<u64>)
    requires
        start < s@.len(),
    ensures
        ({
            let body = s@.skip(start as int);
            match r {
                Some(v) => all_digits(body) && dec_val(body) == v,
                None => !(all_digits(body) && dec_val(body) <= u64::MAX),
            }
        }),
{
    let n = s.unicode_len();
    let ghost body = s@.skip(start as int);
    let mut acc: u64 = 0;
    let mut i: usize = start;
    while i < n
        invariant
            start <= i <= n,
            n == s@.len(),
            start < n,
            body == s@.skip(start as int),
            all_digits(body.take(i - start)),
            acc == dec_val(body.take(i - start)),
        decreases n - i,
    {
        let c = s.get_char(i);
        let cv = c as u32;
        if cv < 48 || cv > 57 {
            proof {
                assert(body[i - start] == s@[i as int]);
                assert(!is_digit(body[i - start]));
            }
            return None;
        }
        let d = (cv - 48) as u64;
        let next = match acc.checked_mul(10) {
            Some(t) => t.checked_add(d),
            None => None,
        };
        match next {
            Some(v) => {
                proof {
                    let pre = body.take(i - start);
                    let pre1 = body.take(i + 1 - start);
                    assert(pre1.drop_last() =~= pre);
                    assert(pre1.last() == s@[i as int]);
                }
                acc = v;
            },
            None => {
                // either a later character is not a digit, or the full value
                // overflows; in both cases the token does not parse
                proof {
                    if all_digits(body) {
                        let pre1 = body.take(i + 1 - start);
                        assert(pre1.drop_last() =~= body.take(i - start));
                        assert(pre1.last() == s@[i as int]);
                        assert(dec_val(pre1) > u64::MAX);
                        lemma_dec_val_prefix_le(body, i + 1 - start);
                    }
                }
                return None;
            },
        }
        i = i + 1;
    }
    proof {
        assert(body.take(n - start) =~= body);
    }
    Some(acc)
}

/// Parse a `u64` from an optional `+` sign followed by decimal digits.
pub fn parse_u64(s: &str) -> (r: Option<u64>)
    ensures
        r == u64_from_chars(s@),
{
    let n = s.unicode_len();
    if n == 0 {
        return None;
    }
    let first = s.get_char(0);
    let start: usize = if first == '+' {
        1
    } else {
        0
    };
    if start == n {
        return None;
    }
    proof {
        if start == 0 {
            assert(unsigned_body(s@) =~= s@.skip(0));
        }
    }
    parse_digits_u64(s, start)
}

/// Parse a `usize` from an optional `+` sign followed by decimal digits.
pub fn parse_usize(s: &str) -> (r: Option<usize>)
    ensures
        r == usize_from_chars(s@),
{
    match parse_u64(s) {
        Some(v) => {
            proof {
                lemma_dec_val_nonneg(unsigned_body(s@));
            }
            if v <= usize::MAX as u64 {
                Some(v as usize)
            } else {
                None
            }
        },
        None => {
            proof {
                let body = unsigned_body(s@);
                if body.len() > 0 && all_digits(body) && dec_val(body) <= usize::MAX {
                    assert(dec_val(body) <= u64::MAX);
                }
            }
            None
        },
    }
}

/// Parse an `i32` from an optional sign followed by decimal digits.
pub fn parse_i32(s: &str) -> (r: Option<i32>)
    ensures
        r == i32_from_chars(s@),
{
    let n = s.unicode_len();
    if n == 0 {
        return None;
    }
    let first = s.get_char(0);
    let neg = first == '-';
    let start: usize = if first == '+' || first == '-' {
        1
    } else {
        0
    };
    if start == n {
        return None;
    }
    proof {
        if start == 0 {
            assert(signed_body(s@) =~= s@.skip(0));
        }
    }
    let mag = parse_digits_u64(s, start);
    match mag {
        Some(v) => {
            if neg {
                if v <= i32::MAX as u64 + 1 {
                    Some((-(v as i64)) as i32)
                } else {
                    None
                }
            } else {
                if v <= i32::MAX as u64 {
                    Some(v as i32)
                } else {
                    None
                }
            }
        },
        None => {
            proof {
                let body = signed_body(s@);
                if body.len() > 0 && all_digits(body) {
                    lemma_dec_val_nonneg(body);
                    if -dec_val(body) >= i32::MIN && dec_val(body) <= i32::MAX {
                        assert(dec_val(body) <= u64::MAX);
                    }
                }
            }
            None
        },
    }
}

} // verus!
