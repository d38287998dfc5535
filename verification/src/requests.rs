use vstd::prelude::*;

use vstd::string::StrSliceExecFns;

verus! {

/// A decimal digit, by code point.
pub open spec fn spec_is_digit(c: char) -> bool {
    48 <= c as u32 <= 57
}

pub open spec fn spec_all_digits(s: Seq<char>) -> bool {
    forall|i: int| 0 <= i < s.len() ==> spec_is_digit(#[trigger] s[i])
}

/// The number a digit string denotes, most significant digit first.
pub open spec fn spec_decimal_value(s: Seq<char>) -> int
    decreases s.len(),
{
    if s.len() == 0 {
        0
    } else {
        spec_decimal_value(s.drop_last()) * 10 + ((s.last() as u32) as int - 48)
    }
}

/// What `parse_u64` accepts: a nonempty, all-digit string whose value fits.
pub open spec fn spec_parse_u64(s: Seq<char>) -> Option<u64> {
    if s.len() > 0 && spec_all_digits(s) && spec_decimal_value(s) <= u64::MAX {
        Some(spec_decimal_value(s) as u64)
    } else {
        None
    }
}

proof fn lemma_decimal_value_nonneg(s: Seq<char>)
    requires
        spec_all_digits(s),
    ensures
        spec_decimal_value(s) >= 0,
    decreases s.len(),
{
    if s.len() > 0 {
        lemma_decimal_value_nonneg(s.drop_last());
    }
}

/// A digit string's value never falls below the value of any of its
/// prefixes: appending a digit multiplies by ten and adds.
proof fn lemma_decimal_value_monotone(s: Seq<char>, k: int)
    requires
        0 <= k <= s.len(),
        spec_all_digits(s),
    ensures
        spec_decimal_value(s.take(k)) <= spec_decimal_value(s),
    decreases s.len() - k,
{
    if k == s.len() {
        assert(s.take(k) =~= s);
    } else {
        assert(s.take(k + 1).drop_last() =~= s.take(k));
        assert(spec_all_digits(s.take(k)));
        lemma_decimal_value_nonneg(s.take(k));
        assert(s.take(k + 1).last() == s[k]);
        lemma_decimal_value_monotone(s, k + 1);
    }
}

/// Reads a decimal `u64`: `Some` exactly on a nonempty, all-digit string
/// whose value fits in 64 bits.
pub fn parse_u64(s: &String) -> (r: Option<u64>)
    ensures
        r == spec_parse_u64(s@),
{
    let st = s.as_str();
    let n = st.unicode_len();
    if n == 0 {
        return None;
    }
    let mut acc: u64 = 0;
    let mut i: usize = 0;
    while i < n
        invariant
            st@ == s@,
            n == s@.len(),
            i <= n,
            spec_all_digits(s@.take(i as int)),
            acc as int == spec_decimal_value(s@.take(i as int)),
        decreases n - i,
    {
        let c = st.get_char(i);
        let v = c as u32;
        if v < 48 || v > 57 {
            proof {
                assert(!spec_is_digit(s@[i as int]));
            }
            return None;
        }
        let digit = (v - 48) as u64;
        proof {
            assert(s@.take(i as int + 1).drop_last() =~= s@.take(i as int));
            assert(s@.take(i as int + 1).last() == s@[i as int]);
            assert(spec_decimal_value(s@.take(i as int + 1)) == acc as int * 10 + digit as int);
        }
        let next = match acc.checked_mul(10) {
            Some(m) => match m.checked_add(digit) {
                Some(x) => x,
                None => {
                    proof {
                        if spec_all_digits(s@) {
                            lemma_decimal_value_monotone(s@, i as int + 1);
                        }
                    }
                    return None;
                },
            },
            None => {
                proof {
                    if spec_all_digits(s@) {
                        lemma_decimal_value_monotone(s@, i as int + 1);
                    }
                }
                return None;
            },
        };
        acc = next;
        i += 1;
    }
    proof {
        assert(s@.take(n as int) =~= s@);
    }
    Some(acc)
}

/// A registration request, as the transport hands it to the library.
#[derive(Debug)]
pub struct RegisterData {
    pub username: String,
    pub password: String,
    pub email: String,
    pub birthdate: String,
    pub firstname: String,
    pub lastname: String,
}

/// A login request: the username and the plaintext password.
#[derive(Debug)]
pub struct LoginData {
    pub username: String,
    pub password: String,
}

/// A logout request: the session to revoke and the user claiming it.
#[derive(Debug)]
pub struct LogoutData {
    pub session_id: String,
    pub username: String,
}

} // verus!
