//! Plain-value form of an HTTP response as the handshake reads it, with
//! the two pieces of response handling the protocol needs: header lookup
//! by case-insensitive name, and parsing of decimal header values.

use vstd::prelude::*;
use vstd::string::StrSliceExecFns;

use crate::validate::{spec_digit_value, spec_is_digit};

verus! {

/// What the library reads of an HTTP response: the status code, the
/// response headers as name/value pairs, and the body text.
pub struct AuthResponse {
    /// The HTTP status code.
    pub status: u16,
    /// The response headers, in wire order.
    pub headers: Vec<(String, String)>,
    /// The body text, kept for diagnostics only.
    pub body: String,
}

/// The code of a character with uppercase ASCII letters folded to
/// lowercase; header names compare by this code.
pub open spec fn spec_lower_code(c: char) -> int {
    if 65 <= c as int <= 90 {
        c as int + 32
    } else {
        c as int
    }
}

/// Equality of header names: same length, characters equal up to ASCII
/// case.
pub open spec fn spec_names_equal_ci(a: Seq<char>, b: Seq<char>) -> bool {
    a.len() == b.len() && (forall|i: int|
        0 <= i < a.len() ==> spec_lower_code(a[i]) == spec_lower_code(#[trigger] b[i]))
}

/// The value of the first header whose name matches `name` up to ASCII
/// case, if any.
pub open spec fn spec_header_lookup(hs: Seq<(String, String)>, name: Seq<char>) -> Option<
    Seq<char>,
>
    decreases hs.len(),
{
    if hs.len() == 0 {
        None
    } else if spec_names_equal_ci(hs[0].0@, name) {
        Some(hs[0].1@)
    } else {
        spec_header_lookup(hs.drop_first(), name)
    }
}

/// Compares two header names, ignoring ASCII case.
pub fn names_equal_ci(a: &str, b: &str) -> (r: bool)
    ensures
        r == spec_names_equal_ci(a@, b@),
{
    let na = a.unicode_len();
    let nb = b.unicode_len();
    if na != nb {
        return false;
    }
    let mut i: usize = 0;
    while i < na
        invariant
            0 <= i <= na,
            na == a@.len(),
            na == b@.len(),
            forall|j: int| 0 <= j < i ==> spec_lower_code(a@[j]) == spec_lower_code(#[trigger] b@[j]),
        decreases na - i,
    {
        let ca = a.get_char(i) as u32;
        let cb = b.get_char(i) as u32;
        let la = if 65 <= ca && ca <= 90 {
            ca + 32
        } else {
            ca
        };
        let lb = if 65 <= cb && cb <= 90 {
            cb + 32
        } else {
            cb
        };
        if la != lb {
            return false;
        }
        i = i + 1;
    }
    true
}

/// Finds the first header whose name matches `name` up to ASCII case
/// and returns a copy of its value.
pub fn header_lookup(headers: &Vec<(String, String)>, name: &str) -> (r: Option<String>)
    ensures
        match r {
            Some(v) => spec_header_lookup(headers@, name@) == Some(v@),
            None => spec_header_lookup(headers@, name@) is None,
        },
{
    let n = headers.len();
    let mut i: usize = 0;
    proof {
        assert(headers@.skip(0) =~= headers@);
    }
    while i < n
        invariant
            0 <= i <= n,
            n == headers@.len(),
            spec_header_lookup(headers@, name@) == spec_header_lookup(
                headers@.skip(i as int),
                name@,
            ),
        decreases n - i,
    {
        let pair = &headers[i];
        proof {
            assert(headers@.skip(i as int)[0] == headers@[i as int]);
        }
        if names_equal_ci(pair.0.as_str(), name) {
            return Some(pair.1.clone());
        }
        proof {
            assert(headers@.skip(i as int).drop_first() =~= headers@.skip(i as int + 1));
        }
        i = i + 1;
    }
    proof {
        assert(headers@.skip(n as int) =~= Seq::<(String, String)>::empty());
    }
    None
}

/// Whether a string is a decimal header value the protocol accepts:
/// one to nineteen digits, all digits (every such value fits a `u64`;
/// any value the protocol can mean is at most two digits).
pub open spec fn spec_parseable_decimal(s: Seq<char>) -> bool {
    1 <= s.len() <= 19 && (forall|i: int| 0 <= i < s.len() ==> spec_is_digit(#[trigger] s[i]))
}

/// The number a digit string writes in decimal.
pub open spec fn spec_decimal_value(s: Seq<char>) -> int
    decreases s.len(),
{
    if s.len() == 0 {
        0
    } else {
        spec_decimal_value(s.drop_last()) * 10 + spec_digit_value(s.last())
    }
}

/// Ten to the `n`-th power.
pub open spec fn spec_pow10(n: nat) -> int
    decreases n,
{
    if n == 0 {
        1
    } else {
        10 * spec_pow10((n - 1) as nat)
    }
}

proof fn lemma_pow10_pos(n: nat)
    ensures
        spec_pow10(n) >= 1,
    decreases n,
{
    if n > 0 {
        lemma_pow10_pos((n - 1) as nat);
    }
}

proof fn lemma_pow10_mono(a: nat, b: nat)
    requires
        a <= b,
    ensures
        spec_pow10(a) <= spec_pow10(b),
    decreases b,
{
    if a < b {
        lemma_pow10_mono(a, (b - 1) as nat);
        lemma_pow10_pos((b - 1) as nat);
    }
}

/// A string of digits writes a number below ten to the power of its
/// length.
pub proof fn lemma_decimal_value_bound(s: Seq<char>)
    requires
        forall|i: int| 0 <= i < s.len() ==> spec_is_digit(#[trigger] s[i]),
    ensures
        0 <= spec_decimal_value(s) < spec_pow10(s.len()),
    decreases s.len(),
{
    if s.len() > 0 {
        assert(forall|i: int|
            0 <= i < s.drop_last().len() ==> spec_is_digit(#[trigger] s.drop_last()[i]));
        lemma_decimal_value_bound(s.drop_last());
        assert(spec_pow10(s.len()) == 10 * spec_pow10((s.len() - 1) as nat));
    }
}

/// Parses a decimal header value: accepts exactly the nonempty
/// all-digit strings of at most nineteen digits, and returns the number
/// they write.
pub fn parse_decimal(s: &str) -> (r: Option<u64>)
    ensures
        r is Some <==> spec_parseable_decimal(s@),
        r matches Some(v) ==> v == spec_decimal_value(s@),
{
    let n = s.unicode_len();
    if n == 0 || n > 19 {
        return None;
    }
    let mut acc: u64 = 0;
    let mut i: usize = 0;
    while i < n
        invariant
            0 <= i <= n,
            1 <= n <= 19,
            n == s@.len(),
            forall|j: int| 0 <= j < i ==> spec_is_digit(#[trigger] s@[j]),
            acc == spec_decimal_value(s@.subrange(0, i as int)),
            acc < spec_pow10(i as nat),
        decreases n - i,
    {
        let c = s.get_char(i);
        if !('0' <= c && c <= '9') {
            return None;
        }
        let d: u64 = (c as u32 as u64) - 48;
        proof {
            assert(d == spec_digit_value(c));
            lemma_pow10_mono(i as nat, 18);
            reveal_with_fuel(spec_pow10, 20);
            assert(spec_pow10(18) == 1000000000000000000);
            assert(spec_pow10((i + 1) as nat) == 10 * spec_pow10(i as nat));
            assert(s@.subrange(0, i as int + 1).drop_last() =~= s@.subrange(0, i as int));
            assert(s@.subrange(0, i as int + 1).last() == s@[i as int]);
        }
        acc = acc * 10 + d;
        i = i + 1;
    }
    proof {
        assert(s@.subrange(0, n as int) =~= s@);
    }
    Some(acc)
}

} // verus!
