//! Local Solar Time at an arbitrary Mars longitude.
//!
//! The base time is Mars Coordinated Time as a 24-hour clock string
//! `HH:MM:SS`. The longitude, signed micro-degrees east, shifts the clock
//! by 240 clock-microseconds per micro-degree (one sol per full turn);
//! the sum is reduced into one sol, so any longitude, however far outside
//! [-360, 360] degrees, yields a defined time of day. A malformed clock
//! string is reported as an invalid-input error, never a panic.

use vstd::prelude::*;
use vstd::arithmetic::div_mod::lemma_div_multiples_vanish;
use vstd::arithmetic::div_mod::lemma_div_pos_is_pos;
use vstd::arithmetic::div_mod::lemma_fundamental_div_mod_converse;
use vstd::arithmetic::div_mod::lemma_mod_add_multiples_vanish;
use vstd::arithmetic::div_mod::lemma_multiply_divide_lt;
use vstd::arithmetic::div_mod::lemma_small_mod;
use crate::converter::TURN_MICRODEG;
use crate::modular::emod_i64;
use crate::present::clock_string;
use crate::present::digit_char;
use crate::present::spec_clock_chars;

verus! {

/// Clock seconds in a sol: the Mars clock runs 24 hours of 3600 seconds.
pub const CLOCK_DAY_SECONDS: u32 = 86_400;

/// Clock microseconds in a sol.
pub const CLOCK_DAY_MICROS: i64 = 86_400_000_000;

/// Clock microseconds of eastward shift per micro-degree of longitude:
/// a full turn of 360 degrees is one whole sol.
pub const MICROS_PER_MICRODEG: i64 = 240;

/// Errors of the Local Solar Time computation.
#[derive(Clone, Copy, Debug, PartialEq, Eq, Structural)]
pub enum LstError {
    /// The textual time input is not a well-formed `HH:MM:SS` clock time.
    InvalidTimeString,
}

/// Whether `c` is a decimal digit.
pub open spec fn is_clock_digit(c: char) -> bool {
    '0' as int <= c as int <= '9' as int
}

/// The value of the decimal digit `c`.
pub open spec fn digit_val(c: char) -> int {
    c as int - '0' as int
}

/// Whether `s` is a well-formed `HH:MM:SS` clock time: exactly eight
/// characters, two-digit fields separated by colons, hours below 24,
/// minutes and seconds below 60.
pub open spec fn valid_clock(s: Seq<char>) -> bool {
    &&& s.len() == 8
    &&& is_clock_digit(s[0])
    &&& is_clock_digit(s[1])
    &&& s[2] == ':'
    &&& is_clock_digit(s[3])
    &&& is_clock_digit(s[4])
    &&& s[5] == ':'
    &&& is_clock_digit(s[6])
    &&& is_clock_digit(s[7])
    &&& 10 * digit_val(s[0]) + digit_val(s[1]) < 24
    &&& 10 * digit_val(s[3]) + digit_val(s[4]) < 60
    &&& 10 * digit_val(s[6]) + digit_val(s[7]) < 60
}

/// The second of the day named by a well-formed clock string.
pub open spec fn spec_clock_seconds(s: Seq<char>) -> int {
    (10 * digit_val(s[0]) + digit_val(s[1])) * 3600 + (10 * digit_val(s[3]) + digit_val(s[4])) * 60
        + (10 * digit_val(s[6]) + digit_val(s[7]))
}

/// Local Solar Time in clock seconds: the base clock seconds shifted by
/// the longitude, reduced into one sol, truncated to the second.
pub open spec fn spec_lst_seconds(mtc_seconds: int, longitude_microdeg: int) -> int {
    (mtc_seconds * 1_000_000 + (longitude_microdeg % (TURN_MICRODEG as int))
        * MICROS_PER_MICRODEG) % (CLOCK_DAY_MICROS as int) / 1_000_000
}

/// The value of `c` if it is a decimal digit.
fn char_digit(c: char) -> (r: Option<u32>)
    ensures
        (match r {
            Some(d) => is_clock_digit(c) && d == digit_val(c),
            None => !is_clock_digit(c),
        }),
{
    let v: u32 = c as u32;
    if 48 <= v && v <= 57 {
        Some(v - 48)
    } else {
        None
    }
}

/// Parses a `HH:MM:SS` clock string into the second of the day it names,
/// in [0, 86400). Returns the invalid-input error exactly on the strings
/// that are not well-formed clock times.
pub fn parse_clock(s: &str) -> (r: Result<u32, LstError>)
    ensures
        (match r {
            Ok(n) => valid_clock(s@) && n == spec_clock_seconds(s@) && n < CLOCK_DAY_SECONDS,
            Err(e) => !valid_clock(s@) && e == LstError::InvalidTimeString,
        }),
{
    if s.unicode_len() != 8 {
        return Err(LstError::InvalidTimeString);
    }
    if !(s.get_char(2) == ':' && s.get_char(5) == ':') {
        return Err(LstError::InvalidTimeString);
    }
    let h10 = match char_digit(s.get_char(0)) {
        Some(d) => d,
        None => { return Err(LstError::InvalidTimeString) },
    };
    let h1 = match char_digit(s.get_char(1)) {
        Some(d) => d,
        None => { return Err(LstError::InvalidTimeString) },
    };
    let m10 = match char_digit(s.get_char(3)) {
        Some(d) => d,
        None => { return Err(LstError::InvalidTimeString) },
    };
    let m1 = match char_digit(s.get_char(4)) {
        Some(d) => d,
        None => { return Err(LstError::InvalidTimeString) },
    };
    let s10 = match char_digit(s.get_char(6)) {
        Some(d) => d,
        None => { return Err(LstError::InvalidTimeString) },
    };
    let s1 = match char_digit(s.get_char(7)) {
        Some(d) => d,
        None => { return Err(LstError::InvalidTimeString) },
    };
    let hours: u32 = 10 * h10 + h1;
    let minutes: u32 = 10 * m10 + m1;
    let seconds: u32 = 10 * s10 + s1;
    if hours >= 24 || minutes >= 60 || seconds >= 60 {
        return Err(LstError::InvalidTimeString);
    }
    Ok(hours * 3600 + minutes * 60 + seconds)
}

/// Local Solar Time of a base clock second at the given longitude, in
/// clock seconds of the sol. Total in the longitude: every value reduces
/// modulo a full turn.
pub fn lst_seconds(mtc_seconds: u32, longitude_microdeg: i64) -> (r: u32)
    requires
        mtc_seconds < CLOCK_DAY_SECONDS,
    ensures
        r == spec_lst_seconds(mtc_seconds as int, longitude_microdeg as int),
        r < CLOCK_DAY_SECONDS,
{
    let lon: i64 = emod_i64(longitude_microdeg, TURN_MICRODEG);
    let total: i64 = (mtc_seconds as i64) * 1_000_000 + lon * MICROS_PER_MICRODEG;
    let wrapped: i64 = emod_i64(total, CLOCK_DAY_MICROS);
    proof {
        lemma_div_pos_is_pos(wrapped as int, 1_000_000);
        lemma_multiply_divide_lt(wrapped as int, 1_000_000, 86_400);
    }
    let r: i64 = wrapped / 1_000_000;
    r as u32
}

/// Local Solar Time at a longitude, from a Mars Coordinated Time clock
/// string: parses the base time, shifts it by the longitude, and renders
/// the result as `HH:MM:SS`. Fails exactly on malformed base times.
pub fn local_solar_time(mtc: &str, longitude_microdeg: i64) -> (r: Result<String, LstError>)
    ensures
        (match r {
            Ok(out) => valid_clock(mtc@) && out@ == spec_clock_chars(
                spec_lst_seconds(spec_clock_seconds(mtc@), longitude_microdeg as int),
            ),
            Err(e) => !valid_clock(mtc@) && e == LstError::InvalidTimeString,
        }),
{
    match parse_clock(mtc) {
        Ok(base) => Ok(clock_string(lst_seconds(base, longitude_microdeg))),
        Err(e) => Err(e),
    }
}

/// Rendering the second of the day named by a well-formed clock string
/// gives back that string, character for character.
pub proof fn lemma_clock_roundtrip(s: Seq<char>)
    requires
        valid_clock(s),
    ensures
        spec_clock_chars(spec_clock_seconds(s)) == s,
{
    let h = 10 * digit_val(s[0]) + digit_val(s[1]);
    let mi = 10 * digit_val(s[3]) + digit_val(s[4]);
    let se = 10 * digit_val(s[6]) + digit_val(s[7]);
    let n = spec_clock_seconds(s);
    lemma_fundamental_div_mod_converse(n, 3600, h, mi * 60 + se);
    lemma_fundamental_div_mod_converse(n, 60, h * 60 + mi, se);
    lemma_fundamental_div_mod_converse(h * 60 + mi, 60, h, mi);
    lemma_fundamental_div_mod_converse(h, 10, digit_val(s[0]), digit_val(s[1]));
    lemma_fundamental_div_mod_converse(mi, 10, digit_val(s[3]), digit_val(s[4]));
    lemma_fundamental_div_mod_converse(se, 10, digit_val(s[6]), digit_val(s[7]));
    assert(digit_char(digit_val(s[0])) == s[0]);
    assert(digit_char(digit_val(s[1])) == s[1]);
    assert(digit_char(digit_val(s[3])) == s[3]);
    assert(digit_char(digit_val(s[4])) == s[4]);
    assert(digit_char(digit_val(s[6])) == s[6]);
    assert(digit_char(digit_val(s[7])) == s[7]);
    assert(spec_clock_chars(n) =~= s);
}

/// Local Solar Time at longitude zero is the base time itself: the
/// shifted clock equals Mars Coordinated Time exactly, and rendering it
/// reproduces the input string.
pub proof fn lemma_lst_at_zero_longitude(s: Seq<char>)
    requires
        valid_clock(s),
    ensures
        spec_lst_seconds(spec_clock_seconds(s), 0) == spec_clock_seconds(s),
        spec_clock_chars(spec_lst_seconds(spec_clock_seconds(s), 0)) == s,
{
    let n = spec_clock_seconds(s);
    assert(0 <= n < 86_400);
    lemma_small_mod(0nat, TURN_MICRODEG as nat);
    lemma_small_mod((n * 1_000_000) as nat, CLOCK_DAY_MICROS as nat);
    lemma_div_multiples_vanish(n, 1_000_000);
    lemma_clock_roundtrip(s);
}

/// Shifting the longitude by one full turn of 360 degrees leaves the
/// Local Solar Time unchanged, whatever the base time and longitude.
pub proof fn lemma_lst_full_turn(mtc_seconds: int, longitude_microdeg: int)
    ensures
        spec_lst_seconds(mtc_seconds, longitude_microdeg + TURN_MICRODEG) == spec_lst_seconds(
            mtc_seconds,
            longitude_microdeg,
        ),
{
    lemma_mod_add_multiples_vanish(longitude_microdeg, TURN_MICRODEG as int);
}

} // verus!
