//! Settings read by name from a key-value source. Reading the source is the
//! caller's part: these functions take the name and the value that was found
//! under it (`None` when there was none) and validate it.
use vstd::prelude::*;
use crate::errors::Error;
use crate::text::{concat2, concat3, trim, trim_ws};

verus! {

/// A setting that was found and is not blank, with its white space trimmed.
pub open spec fn non_empty_setting(value: Option<String>) -> Option<Seq<char>> {
    match value {
        Some(v) => if trim_ws(v@).len() > 0 {
            Some(trim_ws(v@))
        } else {
            None
        },
        None => None,
    }
}

pub open spec fn is_digit(c: char) -> bool {
    48 <= (c as u32) && (c as u32) <= 57
}

pub open spec fn all_digits(s: Seq<char>) -> bool {
    forall|i: int| 0 <= i < s.len() ==> is_digit(#[trigger] s[i])
}

/// The value of a string of decimal digits.
pub open spec fn digits_value(s: Seq<char>) -> int
    decreases s.len(),
{
    if s.len() == 0 {
        0
    } else {
        digits_value(s.drop_last()) * 10 + ((s.last() as u32) - 48)
    }
}

/// The integer that `s` writes in decimal: one or more digits, after an
/// optional `+`, or after a `-` where the target type is signed.
pub open spec fn decimal_value(s: Seq<char>, signed: bool) -> Option<int> {
    if s.len() > 1 && s[0] == '+' && all_digits(s.drop_first()) {
        Some(digits_value(s.drop_first()))
    } else if signed && s.len() > 1 && s[0] == '-' && all_digits(s.drop_first()) {
        Some(-digits_value(s.drop_first()))
    } else if s.len() > 0 && all_digits(s) {
        Some(digits_value(s))
    } else {
        None
    }
}

/// The integer that `s` writes, where it lies in `min..=max`.
pub open spec fn integer_in_range(s: Seq<char>, signed: bool, min: int, max: int) -> Option<int> {
    match decimal_value(s, signed) {
        Some(v) => if min <= v && v <= max {
            Some(v)
        } else {
            None
        },
        None => None,
    }
}

/// The integer held by a setting: found, not blank, and in range once trimmed.
pub open spec fn setting_integer(value: Option<String>, signed: bool, min: int, max: int) -> Option<
    int,
> {
    match non_empty_setting(value) {
        Some(t) => integer_in_range(t, signed, min, max),
        None => None,
    }
}

/// The message of the error for a setting that was not found or is blank.
pub open spec fn setting_error_text(env_key: Seq<char>, value: Option<String>) -> Seq<char> {
    match value {
        None => "Failed retrieving environment variable. Check "@ + env_key + " in .env"@,
        Some(_) => "Invalid environment content. Must not be empty. Check "@ + env_key,
    }
}

/// The trimmed setting `env_key`, where `env_value` holds one that is not
/// blank; an error naming the key otherwise.
pub fn get_non_empty_string_from_env(env_key: &str, env_value: Option<String>) -> (r: Result<
    String,
    Error,
>)
    ensures
        match r {
            Ok(s) => non_empty_setting(env_value) == Some(s@),
            Err(e) => non_empty_setting(env_value) is None && e.message@ == setting_error_text(
                env_key@,
                env_value,
            ),
        },
{
    match env_value {
        None => {
            let message = concat3(
                "Failed retrieving environment variable. Check ",
                env_key,
                " in .env",
            );
            Err(Error::new_from_message(message.as_str()))
        },
        Some(v) => {
            let trimmed = trim(v.as_str());
            if trimmed.as_str().is_empty() {
                let message = concat2(
                    "Invalid environment content. Must not be empty. Check ",
                    env_key,
                );
                Err(Error::new_from_message(message.as_str()))
            } else {
                Ok(trimmed)
            }
        },
    }
}

pub const TWO_POW_64: i128 = 0x1_0000_0000_0000_0000;

/// How `decimal_value` reads `s`: the digits after an accepted sign, or all
/// of `s` where there is none.
proof fn lemma_decimal_value_split(s: Seq<char>, signed: bool, start: int, negative: bool)
    requires
        s.len() > 0,
        negative == (signed && s[0] == '-' && s.len() > 1),
        start == (if (s[0] == '+' && s.len() > 1) || negative {
            1int
        } else {
            0int
        }),
    ensures
        decimal_value(s, signed) == (if all_digits(s.subrange(start, s.len() as int)) {
            Some(
                if negative {
                    -digits_value(s.subrange(start, s.len() as int))
                } else {
                    digits_value(s.subrange(start, s.len() as int))
                },
            )
        } else {
            None
        }),
{
    if start == 1 {
        assert(s.drop_first() =~= s.subrange(1, s.len() as int));
        assert(!is_digit(s[0]));
        assert(!all_digits(s));
    } else {
        assert(s.subrange(0, s.len() as int) =~= s);
        if all_digits(s) {
            assert(is_digit(s[0]));
        }
    }
}

/// Reads `s` as a decimal integer in `min..=max`, with the rules and error
/// messages of `str::parse` for Rust's integer types.
pub fn parse_integer(s: &str, signed: bool, min: i128, max: i128) -> (r: Result<i128, Error>)
    requires
        -TWO_POW_64 <= min <= max < TWO_POW_64,
    ensures
        match r {
            Ok(v) => integer_in_range(s@, signed, min as int, max as int) == Some(v as int),
            Err(e) => {
                &&& integer_in_range(s@, signed, min as int, max as int) is None
                &&& s@.len() == 0 ==> e.message@ == "cannot parse integer from empty string"@
                &&& (decimal_value(s@, signed) matches Some(v) && v > max) ==> e.message@
                    == "number too large to fit in target type"@
                &&& (decimal_value(s@, signed) matches Some(v) && v < min) ==> e.message@
                    == "number too small to fit in target type"@
                &&& (s@.len() > 0 && decimal_value(s@, signed) is None) ==> e.message@
                    == "invalid digit found in string"@
            },
        },
{
    let n = s.unicode_len();
    if n == 0 {
        return Err(Error::new_from_message("cannot parse integer from empty string"));
    }
    let first = s.get_char(0);
    let negative = signed && first == '-' && n > 1;
    assert(first == s@[0]);
    let start: usize = if (first == '+' && n > 1) || negative {
        1
    } else {
        0
    };
    let ghost digits = s@.subrange(start as int, n as int);
    proof {
        lemma_decimal_value_split(s@, signed, start as int, negative);
    }
    let mut i: usize = start;
    let mut acc: i128 = 0;
    let mut big = false;
    while i < n
        invariant
            start <= i <= n,
            n == s@.len(),
            negative == (signed && s@[0] == '-' && s@.len() > 1),
            start == (if (s@[0] == '+' && s@.len() > 1) || negative {
                1int
            } else {
                0int
            }),
            digits == s@.subrange(start as int, n as int),
            all_digits(s@.subrange(start as int, i as int)),
            digits_value(s@.subrange(start as int, i as int)) >= 0,
            !big ==> acc == digits_value(s@.subrange(start as int, i as int)),
            !big ==> 0 <= acc <= TWO_POW_64,
            big ==> digits_value(s@.subrange(start as int, i as int)) > TWO_POW_64,
        decreases n - i,
    {
        let c = s.get_char(i);
        if !((c as u32) >= 48 && (c as u32) <= 57) {
            assert(!all_digits(digits)) by {
                assert(digits[i - start] == c);
            }
            proof {
                lemma_decimal_value_split(s@, signed, start as int, negative);
            }
            return Err(Error::new_from_message("invalid digit found in string"));
        }
        let ghost prev = s@.subrange(start as int, i as int);
        let ghost next = s@.subrange(start as int, i + 1);
        assert(next.drop_last() =~= prev);
        assert(next.last() == c);
        let d = (c as u32 - 48) as i128;
        if !big {
            acc = acc * 10 + d;
            if acc > TWO_POW_64 {
                big = true;
            }
        }
        assert(all_digits(next)) by {
            assert forall|k: int| 0 <= k < next.len() implies is_digit(#[trigger] next[k]) by {
                if k < prev.len() {
                    assert(next[k] == prev[k]);
                }
            }
        }
        i = i + 1;
    }
    assert(s@.subrange(start as int, n as int) =~= digits);
    proof {
        lemma_decimal_value_split(s@, signed, start as int, negative);
    }
    if big {
        if negative {
            return Err(Error::new_from_message("number too small to fit in target type"));
        } else {
            return Err(Error::new_from_message("number too large to fit in target type"));
        }
    }
    let v: i128 = if negative {
        -acc
    } else {
        acc
    };
    if v > max {
        Err(Error::new_from_message("number too large to fit in target type"))
    } else if v < min {
        Err(Error::new_from_message("number too small to fit in target type"))
    } else {
        Ok(v)
    }
}

/// The setting `env_key` read as an integer in `min..=max`.
fn integer_from_env(env_key: &str, env_value: Option<String>, signed: bool, min: i128, max: i128) -> (r:
    Result<i128, Error>)
    requires
        -TWO_POW_64 <= min <= max < TWO_POW_64,
    ensures
        match r {
            Ok(v) => setting_integer(env_value, signed, min as int, max as int) == Some(v as int),
            Err(_) => setting_integer(env_value, signed, min as int, max as int) is None,
        },
{
    let content = get_non_empty_string_from_env(env_key, env_value)?;
    parse_integer(content.as_str(), signed, min, max)
}

/// The setting `env_key` read as an `i8`.
pub fn get_i8_from_env(env_key: &str, env_value: Option<String>) -> (r: Result<i8, Error>)
    ensures
        match r {
            Ok(v) => setting_integer(env_value, true, i8::MIN as int, i8::MAX as int) == Some(
                v as int,
            ),
            Err(_) => setting_integer(env_value, true, i8::MIN as int, i8::MAX as int) is None,
        },
{
    let v = integer_from_env(env_key, env_value, true, i8::MIN as i128, i8::MAX as i128)?;
    Ok(v as i8)
}

/// The setting `env_key` read as an `i16`.
pub fn get_i16_from_env(env_key: &str, env_value: Option<String>) -> (r: Result<i16, Error>)
    ensures
        match r {
            Ok(v) => setting_integer(env_value, true, i16::MIN as int, i16::MAX as int) == Some(
                v as int,
            ),
            Err(_) => setting_integer(env_value, true, i16::MIN as int, i16::MAX as int) is None,
        },
{
    let v = integer_from_env(env_key, env_value, true, i16::MIN as i128, i16::MAX as i128)?;
    Ok(v as i16)
}

/// The setting `env_key` read as an `i32`.
pub fn get_i32_from_env(env_key: &str, env_value: Option<String>) -> (r: Result<i32, Error>)
    ensures
        match r {
            Ok(v) => setting_integer(env_value, true, i32::MIN as int, i32::MAX as int) == Some(
                v as int,
            ),
            Err(_) => setting_integer(env_value, true, i32::MIN as int, i32::MAX as int) is None,
        },
{
    let v = integer_from_env(env_key, env_value, true, i32::MIN as i128, i32::MAX as i128)?;
    Ok(v as i32)
}

/// The setting `env_key` read as an `i64`.
pub fn get_i64_from_env(env_key: &str, env_value: Option<String>) -> (r: Result<i64, Error>)
    ensures
        match r {
            Ok(v) => setting_integer(env_value, true, i64::MIN as int, i64::MAX as int) == Some(
                v as int,
            ),
            Err(_) => setting_integer(env_value, true, i64::MIN as int, i64::MAX as int) is None,
        },
{
    let v = integer_from_env(env_key, env_value, true, i64::MIN as i128, i64::MAX as i128)?;
    Ok(v as i64)
}

/// The setting `env_key` read as a `u8`.
pub fn get_u8_from_env(env_key: &str, env_value: Option<String>) -> (r: Result<u8, Error>)
    ensures
        match r {
            Ok(v) => setting_integer(env_value, false, 0, u8::MAX as int) == Some(v as int),
            Err(_) => setting_integer(env_value, false, 0, u8::MAX as int) is None,
        },
{
    let v = integer_from_env(env_key, env_value, false, 0, u8::MAX as i128)?;
    Ok(v as u8)
}

/// The setting `env_key` read as a `u16`.
pub fn get_u16_from_env(env_key: &str, env_value: Option<String>) -> (r: Result<u16, Error>)
    ensures
        match r {
            Ok(v) => setting_integer(env_value, false, 0, u16::MAX as int) == Some(v as int),
            Err(_) => setting_integer(env_value, false, 0, u16::MAX as int) is None,
        },
{
    let v = integer_from_env(env_key, env_value, false, 0, u16::MAX as i128)?;
    Ok(v as u16)
}

/// The setting `env_key` read as a `u32`.
pub fn get_u32_from_env(env_key: &str, env_value: Option<String>) -> (r: Result<u32, Error>)
    ensures
        match r {
            Ok(v) => setting_integer(env_value, false, 0, u32::MAX as int) == Some(v as int),
            Err(_) => setting_integer(env_value, false, 0, u32::MAX as int) is None,
        },
{
    let v = integer_from_env(env_key, env_value, false, 0, u32::MAX as i128)?;
    Ok(v as u32)
}

/// The setting `env_key` read as a `u64`.
pub fn get_u64_from_env(env_key: &str, env_value: Option<String>) -> (r: Result<u64, Error>)
    ensures
        match r {
            Ok(v) => setting_integer(env_value, false, 0, u64::MAX as int) == Some(v as int),
            Err(_) => setting_integer(env_value, false, 0, u64::MAX as int) is None,
        },
{
    let v = integer_from_env(env_key, env_value, false, 0, u64::MAX as i128)?;
    Ok(v as u64)
}

} // verus!
