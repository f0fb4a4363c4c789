//! Validation of the two identifier formats the service accepts: area ids
//! (a fixed two-letter prefix followed by a number in 1..=47, no leading
//! zero) and station ids (nonempty uppercase-alphanumeric tokens).

use vstd::prelude::*;
use vstd::string::StrSliceExecFns;

verus! {

/// A decimal digit character.
pub open spec fn spec_is_digit(c: char) -> bool {
    '0' <= c && c <= '9'
}

/// A character allowed in a station id: uppercase letter or digit.
pub open spec fn spec_is_station_char(c: char) -> bool {
    ('A' <= c && c <= 'Z') || spec_is_digit(c)
}

/// The exact shape of a valid area id: `JP` then a number 1..=47
/// written without a leading zero.
pub open spec fn spec_valid_area_id(s: Seq<char>) -> bool {
    &&& (s.len() == 3 || s.len() == 4)
    &&& s[0] == 'J'
    &&& s[1] == 'P'
    &&& if s.len() == 3 {
        '1' <= s[2] && s[2] <= '9'
    } else {
        ('1' <= s[2] && s[2] <= '3' && '0' <= s[3] && s[3] <= '9') || (s[2] == '4' && '0' <= s[3]
            && s[3] <= '7')
    }
}

/// The exact shape of a valid station id: nonempty, every character an
/// uppercase letter or a digit.
pub open spec fn spec_valid_station_id(s: Seq<char>) -> bool {
    s.len() >= 1 && (forall|i: int| 0 <= i < s.len() ==> spec_is_station_char(#[trigger] s[i]))
}

/// The digit character that writes the value `d`.
pub open spec fn spec_digit_char(d: int) -> char {
    if d == 0 {
        '0'
    } else if d == 1 {
        '1'
    } else if d == 2 {
        '2'
    } else if d == 3 {
        '3'
    } else if d == 4 {
        '4'
    } else if d == 5 {
        '5'
    } else if d == 6 {
        '6'
    } else if d == 7 {
        '7'
    } else if d == 8 {
        '8'
    } else {
        '9'
    }
}

/// The value written by the digit character `c`.
pub open spec fn spec_digit_value(c: char) -> int {
    if c == '0' {
        0
    } else if c == '1' {
        1
    } else if c == '2' {
        2
    } else if c == '3' {
        3
    } else if c == '4' {
        4
    } else if c == '5' {
        5
    } else if c == '6' {
        6
    } else if c == '7' {
        7
    } else if c == '8' {
        8
    } else {
        9
    }
}

/// The canonical spelling of area number `n`: `JP` followed by `n` in
/// decimal without a leading zero.
pub open spec fn spec_area_code(n: int) -> Seq<char> {
    if n < 10 {
        seq!['J', 'P', spec_digit_char(n)]
    } else {
        seq!['J', 'P', spec_digit_char(n / 10), spec_digit_char(n % 10)]
    }
}

/// The area-id validator accepts exactly the canonical spellings of the
/// numbers 1..=47 and nothing else.
pub proof fn lemma_area_id_exact_set(s: Seq<char>)
    ensures
        spec_valid_area_id(s) <==> exists|n: int| 1 <= n <= 47 && s =~= spec_area_code(n),
{
    if spec_valid_area_id(s) {
        if s.len() == 3 {
            let n = spec_digit_value(s[2]);
            assert(s =~= spec_area_code(n));
        } else {
            let n = spec_digit_value(s[2]) * 10 + spec_digit_value(s[3]);
            assert(10 <= n <= 47);
            assert(s =~= spec_area_code(n));
        }
    }
    if exists|n: int| 1 <= n <= 47 && s =~= spec_area_code(n) {
        let n = choose|n: int| 1 <= n <= 47 && s =~= spec_area_code(n);
        if n >= 10 {
            assert(1 <= n / 10 <= 4 && 0 <= n % 10 <= 9);
            assert(spec_valid_area_id(spec_area_code(n)));
        }
    }
}

/// Checks that an area id is `JP` followed by a number in 1..=47,
/// written without a leading zero. No I/O is attempted on behalf of an
/// id this rejects.
pub fn is_valid_area_id(area_id: &str) -> (r: bool)
    ensures
        r == spec_valid_area_id(area_id@),
{
    let n = area_id.unicode_len();
    if n != 3 && n != 4 {
        return false;
    }
    if area_id.get_char(0) != 'J' || area_id.get_char(1) != 'P' {
        return false;
    }
    let c2 = area_id.get_char(2);
    if n == 3 {
        '1' <= c2 && c2 <= '9'
    } else {
        let c3 = area_id.get_char(3);
        ('1' <= c2 && c2 <= '3' && '0' <= c3 && c3 <= '9') || (c2 == '4' && '0' <= c3 && c3 <= '7')
    }
}

/// Checks that a station id is nonempty and made only of uppercase
/// letters and digits.
pub fn is_valid_station_id(station_id: &str) -> (r: bool)
    ensures
        r == spec_valid_station_id(station_id@),
{
    let n = station_id.unicode_len();
    if n == 0 {
        return false;
    }
    let mut i: usize = 0;
    while i < n
        invariant
            0 <= i <= n,
            n == station_id@.len(),
            forall|j: int| 0 <= j < i ==> spec_is_station_char(#[trigger] station_id@[j]),
        decreases n - i,
    {
        let c = station_id.get_char(i);
        if !(('A' <= c && c <= 'Z') || ('0' <= c && c <= '9')) {
            return false;
        }
        i = i + 1;
    }
    true
}

} // verus!
