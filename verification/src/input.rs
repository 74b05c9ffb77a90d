//! The menu-selection reader: decides what a line of user input
//! selects.  A selection that does not parse as a whole number is the
//! pipeline's one `Input` failure; a number that names no menu entry
//! is recognized as such and reported without error.

use vstd::prelude::*;
use crate::errors::WeatherError;
use crate::pipeline::Mode;
use crate::text::{trim_spec, trimmed};

verus! {

/// A decimal digit.
pub open spec fn is_digit_char(c: char) -> bool {
    '0' <= c && c <= '9'
}

/// The numeric value of a digit character.
pub open spec fn digit_val(c: char) -> int {
    c as int - '0' as int
}

/// The value of a digit string, most significant digit first.
pub open spec fn digits_val(s: Seq<char>) -> int
    decreases s.len(),
{
    if s.len() == 0 {
        0
    } else {
        digits_val(s.drop_last()) * 10 + digit_val(s.last())
    }
}

/// Every character of `s` is a decimal digit.
pub open spec fn all_digits(s: Seq<char>) -> bool {
    forall|i: int| 0 <= i < s.len() ==> is_digit_char(#[trigger] s[i])
}

/// The whole number that `s` spells, if any: an optional `'+'` or
/// `'-'` sign followed by one or more decimal digits, nothing else.
pub open spec fn int_of_text(s: Seq<char>) -> Option<int> {
    if s.len() > 0 && (s[0] == '+' || s[0] == '-') {
        if s.len() > 1 && all_digits(s.drop_first()) {
            if s[0] == '-' {
                Some(-digits_val(s.drop_first()))
            } else {
                Some(digits_val(s.drop_first()))
            }
        } else {
            None
        }
    } else if s.len() > 0 && all_digits(s) {
        Some(digits_val(s))
    } else {
        None
    }
}

/// What a menu selection decides.
#[derive(Clone, Copy, PartialEq, Eq, Structural, Debug)]
pub enum MenuChoice {
    /// Selection `1`: the multi-point forecast.
    Forecast,
    /// Selection `2`: the current conditions.
    Current,
    /// A number that names no menu entry; reported as an invalid
    /// choice, without error.
    Unrecognized,
}

/// The mode a recognized choice selects.
pub open spec fn mode_of_choice(c: MenuChoice) -> Option<Mode> {
    match c {
        MenuChoice::Forecast => Some(Mode::Forecast),
        MenuChoice::Current => Some(Mode::Current),
        MenuChoice::Unrecognized => None,
    }
}

/// Maps a recognized choice to its mode.
pub fn choice_mode(c: MenuChoice) -> (r: Option<Mode>)
    ensures
        r == mode_of_choice(c),
{
    match c {
        MenuChoice::Forecast => Some(Mode::Forecast),
        MenuChoice::Current => Some(Mode::Current),
        MenuChoice::Unrecognized => None,
    }
}

/// What a trimmed selection decides: `None` when the text spells no
/// number that a 32-bit selection could hold — that is the `Input`
/// failure — otherwise `1` and `2` pick their menu entries and every
/// other number is `Unrecognized`.
pub open spec fn choice_spec(t: Seq<char>) -> Option<MenuChoice> {
    match int_of_text(t) {
        Some(v) => {
            if v < -2147483648 || v > 2147483647 {
                None
            } else if v == 1 {
                Some(MenuChoice::Forecast)
            } else if v == 2 {
                Some(MenuChoice::Current)
            } else {
                Some(MenuChoice::Unrecognized)
            }
        },
        None => None,
    }
}

/// Parses a menu selection from a raw input line: the line is
/// trimmed, then read as a signed whole number per [`choice_spec`];
/// an unparseable selection fails with `Input`.
#[verifier::loop_isolation(false)]
pub fn parse_choice(s: &str) -> (r: Result<MenuChoice, WeatherError>)
    ensures
        match choice_spec(trim_spec(s@)) {
            Some(c) => r == Ok::<MenuChoice, WeatherError>(c),
            None => r == Err::<MenuChoice, WeatherError>(WeatherError::Input),
        },
{
    let t = trimmed(s);
    let n = t.unicode_len();
    if n == 0 {
        return Err(WeatherError::Input);
    }
    let c0 = t.get_char(0);
    let neg = c0 == '-';
    let start: usize = if c0 == '-' || c0 == '+' {
        1
    } else {
        0
    };
    if n == start {
        return Err(WeatherError::Input);
    }
    let ghost ds = t@.subrange(start as int, n as int);
    proof {
        if start == 1 {
            assert(ds =~= t@.drop_first());
        } else {
            assert(ds =~= t@);
        }
    }
    let mut i = start;
    let mut acc: u64 = 0;
    let mut over = false;
    while i < n
        invariant
            start <= i <= n,
            all_digits(t@.subrange(start as int, i as int)),
            !over ==> acc == digits_val(t@.subrange(start as int, i as int)) && acc
                <= 0xFFFF_FFFFu64,
            over ==> digits_val(t@.subrange(start as int, i as int)) > 0xFFFF_FFFFu64,
        decreases n - i,
    {
        let c = t.get_char(i);
        if !('0' <= c && c <= '9') {
            proof {
                assert(ds[i - start] == t@[i as int]);
                assert(!all_digits(ds));
            }
            return Err(WeatherError::Input);
        }
        let d: u64 = ((c as u32) - ('0' as u32)) as u64;
        proof {
            assert(t@.subrange(start as int, i as int + 1).drop_last() =~= t@.subrange(
                start as int,
                i as int,
            ));
            assert(t@.subrange(start as int, i as int + 1).last() == t@[i as int]);
        }
        if !over {
            let next = acc * 10 + d;
            if next > 0xFFFF_FFFFu64 {
                over = true;
            } else {
                acc = next;
            }
        }
        i = i + 1;
    }
    proof {
        assert(t@.subrange(start as int, n as int) == ds);
        assert(int_of_text(t@) == Some(if neg {
            -digits_val(ds)
        } else {
            digits_val(ds)
        }));
    }
    if over {
        return Err(WeatherError::Input);
    }
    if neg {
        if acc > 2147483648u64 {
            return Err(WeatherError::Input);
        }
        return Ok(MenuChoice::Unrecognized);
    }
    if acc > 2147483647u64 {
        return Err(WeatherError::Input);
    }
    if acc == 1 {
        Ok(MenuChoice::Forecast)
    } else if acc == 2 {
        Ok(MenuChoice::Current)
    } else {
        Ok(MenuChoice::Unrecognized)
    }
}

} // verus!
