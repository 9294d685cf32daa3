//! Integer coercion for string fields: digit-only strings become integers.

use vstd::prelude::*;

use crate::text::{all_digits, chars_of, is_all_digits, trim, trimmed};
use crate::types::coerce::{coerced_int, CoerceStringToInt};

verus! {

/// What coercing a string by [`CoerceInt`] gives: its value where every
/// character is an ASCII digit, the string is not empty and the value fits in
/// an `i64`.
pub open spec fn coerced_i64(s: Seq<char>) -> Option<int> {
    coerced_int(s, i64::MAX as int)
}

/// Trait for coercing digit-only strings to integers
pub trait CoerceInt: Sized {
    type Output;

    /// Try to coerce a string to an integer if it contains only digits
    fn coerce_int(&self) -> Option<Self::Output>;
}

impl CoerceInt for String {
    type Output = i64;

    fn coerce_int(&self) -> (r: Option<i64>)
        ensures
            match r {
                Some(v) => coerced_i64(self@) == Some(v as int),
                None => coerced_i64(self@) is None,
            },
    {
        i64::coerce_from_string(self.as_str())
    }
}

impl<'a> CoerceInt for &'a str {
    type Output = i64;

    fn coerce_int(&self) -> (r: Option<i64>)
        ensures
            match r {
                Some(v) => coerced_i64((*self)@) == Some(v as int),
                None => coerced_i64((*self)@) is None,
            },
    {
        i64::coerce_from_string(*self)
    }
}

/// Check if a string contains only digits
pub fn is_digit_only(s: &str) -> (r: bool)
    ensures
        r == all_digits(s@),
{
    is_all_digits(s)
}

/// Coerce string to i32 if it contains only digits
pub fn coerce_to_i32(s: &str) -> (r: Option<i32>)
    ensures
        match r {
            Some(v) => coerced_int(s@, i32::MAX as int) == Some(v as int),
            None => coerced_int(s@, i32::MAX as int) is None,
        },
{
    i32::coerce_from_string(s)
}

/// Coerce string to i64 if it contains only digits
pub fn coerce_to_i64(s: &str) -> (r: Option<i64>)
    ensures
        match r {
            Some(v) => coerced_int(s@, i64::MAX as int) == Some(v as int),
            None => coerced_int(s@, i64::MAX as int) is None,
        },
{
    i64::coerce_from_string(s)
}

/// Coerce string to u32 if it contains only digits
pub fn coerce_to_u32(s: &str) -> (r: Option<u32>)
    ensures
        match r {
            Some(v) => coerced_int(s@, u32::MAX as int) == Some(v as int),
            None => coerced_int(s@, u32::MAX as int) is None,
        },
{
    u32::coerce_from_string(s)
}

/// Coerce string to u64 if it contains only digits
pub fn coerce_to_u64(s: &str) -> (r: Option<u64>)
    ensures
        match r {
            Some(v) => coerced_int(s@, u64::MAX as int) == Some(v as int),
            None => coerced_int(s@, u64::MAX as int) is None,
        },
{
    u64::coerce_from_string(s)
}

/// Helper for optional field coercion - returns None if the trimmed string is
/// empty or not digit-only
pub fn coerce_optional_i32(s: Option<String>) -> (r: Option<i32>)
    ensures
        match s {
            None => r is None,
            Some(t) => match r {
                Some(v) => coerced_int(trim(t@), i32::MAX as int) == Some(v as int),
                None => coerced_int(trim(t@), i32::MAX as int) is None,
            },
        },
{
    match s {
        Some(v) => {
            let t = trimmed(v.as_str());
            coerce_to_i32(t.as_str())
        },
        None => None,
    }
}

/// Helper for optional field coercion - returns None if the trimmed string is
/// empty or not digit-only
pub fn coerce_optional_i64(s: Option<String>) -> (r: Option<i64>)
    ensures
        match s {
            None => r is None,
            Some(t) => match r {
                Some(v) => coerced_int(trim(t@), i64::MAX as int) == Some(v as int),
                None => coerced_int(trim(t@), i64::MAX as int) is None,
            },
        },
{
    match s {
        Some(v) => {
            let t = trimmed(v.as_str());
            coerce_to_i64(t.as_str())
        },
        None => None,
    }
}

/// Helper for optional field coercion - returns None if the trimmed string is
/// empty or not digit-only
pub fn coerce_optional_u32(s: Option<String>) -> (r: Option<u32>)
    ensures
        match s {
            None => r is None,
            Some(t) => match r {
                Some(v) => coerced_int(trim(t@), u32::MAX as int) == Some(v as int),
                None => coerced_int(trim(t@), u32::MAX as int) is None,
            },
        },
{
    match s {
        Some(v) => {
            let t = trimmed(v.as_str());
            coerce_to_u32(t.as_str())
        },
        None => None,
    }
}

/// Helper for optional field coercion - returns None if the trimmed string is
/// empty or not digit-only
pub fn coerce_optional_u64(s: Option<String>) -> (r: Option<u64>)
    ensures
        match s {
            None => r is None,
            Some(t) => match r {
                Some(v) => coerced_int(trim(t@), u64::MAX as int) == Some(v as int),
                None => coerced_int(trim(t@), u64::MAX as int) is None,
            },
        },
{
    match s {
        Some(v) => {
            let t = trimmed(v.as_str());
            coerce_to_u64(t.as_str())
        },
        None => None,
    }
}

} // verus!
