//! Coercion of loosely typed string input into integers, booleans and
//! normalised strings.

use vstd::prelude::*;

use crate::text::{
    all_digits, chars_of, decimal, digit_char, digit_value, digits_value, is_digit, lowercase,
    str_eq, to_lowercase, trim, trimmed, is_all_digits, parse_digits_u64,
};

verus! {

/// What coercing the string `s` into an integer type whose largest value is
/// `max` yields: the value of `s` where `s` is a non-empty run of ASCII digits
/// whose value fits, nothing otherwise.
pub open spec fn coerced_int(s: Seq<char>, max: int) -> Option<int> {
    if all_digits(s) && digits_value(s) <= max {
        Some(digits_value(s) as int)
    } else {
        None
    }
}

pub proof fn lemma_decimal_digits(n: nat)
    ensures
        all_digits(decimal(n)),
        digits_value(decimal(n)) == n,
    decreases n,
{
    if n < 10 {
        let s = decimal(n);
        assert(s == seq![digit_char(n)]);
        assert(s.drop_last() =~= Seq::<char>::empty());
        assert(is_digit(digit_char(n)));
        assert(digit_value(digit_char(n)) == n);
        assert(s.last() == digit_char(n));
        assert(digits_value(Seq::<char>::empty()) == 0);
        assert(digits_value(s) == digits_value(s.drop_last()) * 10 + digit_value(s.last()));
    } else {
        lemma_decimal_digits(n / 10);
        let prev = decimal(n / 10);
        let s = decimal(n);
        let d = (n % 10) as nat;
        assert(s == prev.push(digit_char(d)));
        assert(s.drop_last() =~= prev);
        assert(is_digit(digit_char(d)));
        assert(digit_value(digit_char(d)) == d);
        assert forall|i: int| 0 <= i < s.len() implies is_digit(#[trigger] s[i]) by {
            if i < prev.len() {
                assert(s[i] == prev[i]);
            }
        }
        assert(s.last() == digit_char(d));
        assert(digits_value(s) == digits_value(prev) * 10 + digit_value(digit_char(d)));
        assert(n == (n / 10) * 10 + d);
    }
}

/// Coercion reads back what decimal formatting writes: the decimal text of a
/// number that fits coerces to that number.
pub proof fn lemma_coerce_reads_decimal(n: nat, max: int)
    requires
        n <= max,
    ensures
        coerced_int(decimal(n), max) == Some(n as int),
{
    lemma_decimal_digits(n);
}

/// Parses a digit-only string into an integer no larger than `max`.
fn coerce_bounded(s: &str, max: u64) -> (r: Option<u64>)
    ensures
        match r {
            Some(v) => coerced_int(s@, max as int) == Some(v as int),
            None => coerced_int(s@, max as int) is None,
        },
{
    if !is_all_digits(s) {
        return None;
    }
    match parse_digits_u64(s) {
        Some(v) => if v <= max {
            Some(v)
        } else {
            None
        },
        None => None,
    }
}

/// Integer types that a digit-only string can be coerced into.
pub trait CoerceStringToInt: Sized {
    /// The largest value of the type.
    spec fn max_value() -> int;

    /// The value as a mathematical integer.
    spec fn as_int(self) -> int;

    /// Convert a digit-only string to the target integer type
    fn coerce_from_string(s: &str) -> (r: Option<Self>)
        ensures
            match r {
                Some(v) => coerced_int(s@, Self::max_value()) == Some(v.as_int()),
                None => coerced_int(s@, Self::max_value()) is None,
            },
    ;

    /// Convert an optional string to the target integer type
    fn coerce_from_optional(s: Option<&str>) -> (r: Option<Self>)
        ensures
            match s {
                None => r is None,
                Some(t) => match r {
                    Some(v) => coerced_int(t@, Self::max_value()) == Some(v.as_int()),
                    None => coerced_int(t@, Self::max_value()) is None,
                },
            },
    ;
}

impl CoerceStringToInt for i32 {
    open spec fn max_value() -> int {
        i32::MAX as int
    }

    open spec fn as_int(self) -> int {
        self as int
    }

    fn coerce_from_string(s: &str) -> (r: Option<Self>) {
        match coerce_bounded(s, 2147483647u64) {
            Some(v) => Some(v as i32),
            None => None,
        }
    }

    fn coerce_from_optional(s: Option<&str>) -> (r: Option<Self>) {
        match s {
            Some(v) => Self::coerce_from_string(v),
            None => None,
        }
    }
}

impl CoerceStringToInt for i64 {
    open spec fn max_value() -> int {
        i64::MAX as int
    }

    open spec fn as_int(self) -> int {
        self as int
    }

    fn coerce_from_string(s: &str) -> (r: Option<Self>) {
        match coerce_bounded(s, 9223372036854775807u64) {
            Some(v) => Some(v as i64),
            None => None,
        }
    }

    fn coerce_from_optional(s: Option<&str>) -> (r: Option<Self>) {
        match s {
            Some(v) => Self::coerce_from_string(v),
            None => None,
        }
    }
}

impl CoerceStringToInt for u32 {
    open spec fn max_value() -> int {
        u32::MAX as int
    }

    open spec fn as_int(self) -> int {
        self as int
    }

    fn coerce_from_string(s: &str) -> (r: Option<Self>) {
        match coerce_bounded(s, 4294967295u64) {
            Some(v) => Some(v as u32),
            None => None,
        }
    }

    fn coerce_from_optional(s: Option<&str>) -> (r: Option<Self>) {
        match s {
            Some(v) => Self::coerce_from_string(v),
            None => None,
        }
    }
}

impl CoerceStringToInt for u64 {
    open spec fn max_value() -> int {
        u64::MAX as int
    }

    open spec fn as_int(self) -> int {
        self as int
    }

    fn coerce_from_string(s: &str) -> (r: Option<Self>) {
        coerce_bounded(s, 18446744073709551615u64)
    }

    fn coerce_from_optional(s: Option<&str>) -> (r: Option<Self>) {
        match s {
            Some(v) => Self::coerce_from_string(v),
            None => None,
        }
    }
}

/// Check if a string contains only ASCII digits
pub fn is_digit_only(s: &str) -> (r: bool)
    ensures
        r == all_digits(s@),
{
    is_all_digits(s)
}

/// Coerce a string to an integer, returning None if not digit-only
pub fn coerce_string_to_int<T: CoerceStringToInt>(s: &str) -> (r: Option<T>)
    ensures
        match r {
            Some(v) => coerced_int(s@, T::max_value()) == Some(v.as_int()),
            None => coerced_int(s@, T::max_value()) is None,
        },
{
    T::coerce_from_string(s)
}

/// Coerce an optional string to an integer
pub fn coerce_optional_string_to_int<T: CoerceStringToInt>(s: Option<String>) -> (r: Option<T>)
    ensures
        match s {
            None => r is None,
            Some(t) => match r {
                Some(v) => coerced_int(t@, T::max_value()) == Some(v.as_int()),
                None => coerced_int(t@, T::max_value()) is None,
            },
        },
{
    match s {
        Some(v) => T::coerce_from_string(v.as_str()),
        None => None,
    }
}

/// Coercion of `Option` fields
pub trait CoerceOptional<T> {
    /// Coerce an Option<String> to Option<T>
    fn coerce(opt: Option<String>) -> Option<T>;
}

impl<T: CoerceStringToInt> CoerceOptional<T> for T {
    fn coerce(opt: Option<String>) -> (r: Option<T>)
        ensures
            match opt {
                None => r is None,
                Some(t) => match r {
                    Some(v) => coerced_int(t@, T::max_value()) == Some(v.as_int()),
                    None => coerced_int(t@, T::max_value()) is None,
                },
            },
    {
        coerce_optional_string_to_int(opt)
    }
}

/// Coerce a string field that might be numeric or string.
/// Returns the integer value if the trimmed string contains only digits,
/// otherwise None
pub fn coerce_numeric_string(s: &str) -> (r: Option<i64>)
    ensures
        match r {
            Some(v) => coerced_int(trim(s@), i64::MAX as int) == Some(v as int),
            None => coerced_int(trim(s@), i64::MAX as int) is None,
        },
{
    let t = trimmed(s);
    i64::coerce_from_string(t.as_str())
}

/// Coerce a string field to i32
pub fn coerce_to_i32(s: &str) -> (r: Option<i32>)
    ensures
        match r {
            Some(v) => coerced_int(s@, i32::MAX as int) == Some(v as int),
            None => coerced_int(s@, i32::MAX as int) is None,
        },
{
    coerce_string_to_int(s)
}

/// Coerce a string field to i64
pub fn coerce_to_i64(s: &str) -> (r: Option<i64>)
    ensures
        match r {
            Some(v) => coerced_int(s@, i64::MAX as int) == Some(v as int),
            None => coerced_int(s@, i64::MAX as int) is None,
        },
{
    coerce_string_to_int(s)
}

/// Coerce a string field to u32
pub fn coerce_to_u32(s: &str) -> (r: Option<u32>)
    ensures
        match r {
            Some(v) => coerced_int(s@, u32::MAX as int) == Some(v as int),
            None => coerced_int(s@, u32::MAX as int) is None,
        },
{
    coerce_string_to_int(s)
}

/// Coerce a string field to u64
pub fn coerce_to_u64(s: &str) -> (r: Option<u64>)
    ensures
        match r {
            Some(v) => coerced_int(s@, u64::MAX as int) == Some(v as int),
            None => coerced_int(s@, u64::MAX as int) is None,
        },
{
    coerce_string_to_int(s)
}

/// Coerce an optional string to i32
pub fn coerce_optional_to_i32(s: Option<String>) -> (r: Option<i32>)
    ensures
        match s {
            None => r is None,
            Some(t) => match r {
                Some(v) => coerced_int(t@, i32::MAX as int) == Some(v as int),
                None => coerced_int(t@, i32::MAX as int) is None,
            },
        },
{
    coerce_optional_string_to_int(s)
}

/// Coerce an optional string to i64
pub fn coerce_optional_to_i64(s: Option<String>) -> (r: Option<i64>)
    ensures
        match s {
            None => r is None,
            Some(t) => match r {
                Some(v) => coerced_int(t@, i64::MAX as int) == Some(v as int),
                None => coerced_int(t@, i64::MAX as int) is None,
            },
        },
{
    coerce_optional_string_to_int(s)
}

/// Coerce an optional string to u32
pub fn coerce_optional_to_u32(s: Option<String>) -> (r: Option<u32>)
    ensures
        match s {
            None => r is None,
            Some(t) => match r {
                Some(v) => coerced_int(t@, u32::MAX as int) == Some(v as int),
                None => coerced_int(t@, u32::MAX as int) is None,
            },
        },
{
    coerce_optional_string_to_int(s)
}

/// Coerce an optional string to u64
pub fn coerce_optional_to_u64(s: Option<String>) -> (r: Option<u64>)
    ensures
        match s {
            None => r is None,
            Some(t) => match r {
                Some(v) => coerced_int(t@, u64::MAX as int) == Some(v as int),
                None => coerced_int(t@, u64::MAX as int) is None,
            },
        },
{
    coerce_optional_string_to_int(s)
}

/// The boolean that a lower-cased word stands for: "true", "1", "yes" and
/// "on" are true; "false", "0", "no" and "off" are false.
pub open spec fn bool_word(s: Seq<char>) -> Option<bool> {
    if s == "true"@ || s == "1"@ || s == "yes"@ || s == "on"@ {
        Some(true)
    } else if s == "false"@ || s == "0"@ || s == "no"@ || s == "off"@ {
        Some(false)
    } else {
        None
    }
}

/// The words read as booleans are exactly `true`, `1`, `yes`, `on` (true)
/// and `false`, `0`, `no`, `off` (false); every other word reads as nothing.
pub proof fn lemma_bool_words(s: Seq<char>)
    ensures
        (bool_word(s) == Some(true)) <==> (s == seq!['t', 'r', 'u', 'e'] || s == seq!['1'] || s == seq![
            'y',
            'e',
            's',
        ] || s == seq!['o', 'n']),
        (bool_word(s) == Some(false)) <==> (s == seq!['f', 'a', 'l', 's', 'e'] || s == seq!['0'] || s == seq![
            'n',
            'o',
        ] || s == seq!['o', 'f', 'f']),
        (bool_word(s) is None) <==> !(s == seq!['t', 'r', 'u', 'e'] || s == seq!['1'] || s == seq![
            'y',
            'e',
            's',
        ] || s == seq!['o', 'n'] || s == seq!['f', 'a', 'l', 's', 'e'] || s == seq!['0'] || s == seq![
            'n',
            'o',
        ] || s == seq!['o', 'f', 'f']),
{
    reveal_strlit("true");
    reveal_strlit("1");
    reveal_strlit("yes");
    reveal_strlit("on");
    reveal_strlit("false");
    reveal_strlit("0");
    reveal_strlit("no");
    reveal_strlit("off");
    assert("true"@ =~= seq!['t', 'r', 'u', 'e']);
    assert("1"@ =~= seq!['1']);
    assert("yes"@ =~= seq!['y', 'e', 's']);
    assert("on"@ =~= seq!['o', 'n']);
    assert("false"@ =~= seq!['f', 'a', 'l', 's', 'e']);
    assert("0"@ =~= seq!['0']);
    assert("no"@ =~= seq!['n', 'o']);
    assert("off"@ =~= seq!['o', 'f', 'f']);
    assert(seq!['1'] != seq!['0']) by {
        assert(seq!['1'][0] != seq!['0'][0]);
    }
    assert(seq!['o', 'n'] != seq!['n', 'o']) by {
        assert(seq!['o', 'n'][0] != seq!['n', 'o'][0]);
    }
    assert(seq!['y', 'e', 's'] != seq!['o', 'f', 'f']) by {
        assert(seq!['y', 'e', 's'][0] != seq!['o', 'f', 'f'][0]);
    }
}

/// Reads a boolean from a word that is already in lower case.
pub fn coerce_lowercase_to_bool(s: &str) -> (r: Option<bool>)
    ensures
        r == bool_word(s@),
{
    if str_eq(s, "true") || str_eq(s, "1") || str_eq(s, "yes") || str_eq(s, "on") {
        Some(true)
    } else if str_eq(s, "false") || str_eq(s, "0") || str_eq(s, "no") || str_eq(s, "off") {
        Some(false)
    } else {
        None
    }
}

/// Coerce a boolean from various representations
pub fn coerce_to_bool(s: &str) -> (r: Option<bool>)
    ensures
        r == bool_word(lowercase(s@)),
{
    let lower = to_lowercase(s);
    coerce_lowercase_to_bool(lower.as_str())
}

/// Coerce an optional boolean
pub fn coerce_optional_to_bool(s: Option<String>) -> (r: Option<bool>)
    ensures
        r == match s {
            Some(t) => bool_word(lowercase(t@)),
            None => None,
        },
{
    match s {
        Some(v) => coerce_to_bool(v.as_str()),
        None => None,
    }
}

/// Coerce a string, trimming whitespace
pub fn coerce_trim(s: &str) -> (r: String)
    ensures
        r@ == trim(s@),
{
    trimmed(s)
}

/// Coerce an optional string, returning None for empty strings
pub fn coerce_optional_trim(s: Option<String>) -> (r: Option<String>)
    ensures
        match s {
            None => r is None,
            Some(t) => if trim(t@).len() == 0 {
                r is None
            } else {
                r matches Some(v) && v@ == trim(t@)
            },
        },
{
    match s {
        Some(v) => {
            let t = trimmed(v.as_str());
            if t.as_str().is_empty() {
                None
            } else {
                Some(t)
            }
        },
        None => None,
    }
}

/// Coerce a string to lowercase
pub fn coerce_to_lowercase(s: &str) -> (r: String)
    ensures
        r@ == lowercase(s@),
{
    to_lowercase(s)
}

/// Coerce an optional to lowercase and trim
pub fn coerce_optional_to_lowercase(s: Option<String>) -> (r: Option<String>)
    ensures
        match s {
            None => r is None,
            Some(t) => if lowercase(trim(t@)).len() == 0 {
                r is None
            } else {
                r matches Some(v) && v@ == lowercase(trim(t@))
            },
        },
{
    match s {
        Some(v) => {
            let t = trimmed(v.as_str());
            let l = to_lowercase(t.as_str());
            if l.as_str().is_empty() {
                None
            } else {
                Some(l)
            }
        },
        None => None,
    }
}

} // verus!
