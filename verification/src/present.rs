//! Fixed textual layout of a Mars time.
//!
//! The layout is `AMT (LMST at 0°): HH:MM:SS  LsD.DD°`: zero-padded
//! two-digit clock fields, and the solar longitude with two decimal
//! places, rounded half-up from the stored milli-degrees.

use vstd::prelude::*;
use vstd::arithmetic::div_mod::lemma_div_pos_is_pos;
use vstd::arithmetic::div_mod::lemma_mod_division_less_than_divisor;
use vstd::arithmetic::div_mod::lemma_multiply_divide_lt;
use crate::converter::MarsTime;

verus! {

/// The decimal digit character for `d` in 0..10.
pub open spec fn digit_char(d: int) -> char {
    if d == 0 {
        '0'
    } else if d == 1 {
        '1'
    } else if d == 2 {
        '2'
    } else if d == 3 {
        '3'
    } else if d == 4 {
        '4'
    } else if d == 5 {
        '5'
    } else if d == 6 {
        '6'
    } else if d == 7 {
        '7'
    } else if d == 8 {
        '8'
    } else {
        '9'
    }
}

/// Two-digit zero-padded decimal rendering of `n` in 0..100.
pub open spec fn spec_two_digits(n: int) -> Seq<char> {
    seq![digit_char(n / 10), digit_char(n % 10)]
}

/// `HH:MM:SS` rendering of a time of day given in seconds, for any day
/// of 86400 clock seconds.
pub open spec fn spec_clock_chars(total_seconds: int) -> Seq<char> {
    spec_two_digits(total_seconds / 3600) + seq![':'] + spec_two_digits((total_seconds / 60) % 60)
        + seq![':'] + spec_two_digits(total_seconds % 60)
}

/// Unpadded decimal rendering of `n` in 0..1000.
pub open spec fn spec_uint_chars(n: int) -> Seq<char> {
    if n < 10 {
        seq![digit_char(n)]
    } else if n < 100 {
        seq![digit_char(n / 10), digit_char(n % 10)]
    } else {
        seq![digit_char(n / 100), digit_char((n / 10) % 10), digit_char(n % 10)]
    }
}

/// Solar longitude with two decimal places, rounded half-up from
/// milli-degrees: `D.DD` with one to three integer digits.
pub open spec fn spec_degrees_chars(ls_millideg: int) -> Seq<char> {
    let centi = (ls_millideg + 5) / 10;
    spec_uint_chars(centi / 100) + seq!['.'] + spec_two_digits(centi % 100)
}

/// The full line: label, Areocentric Mean Time as a 24-hour Mars clock,
/// and the solar longitude in degrees.
pub open spec fn spec_format_mars_time(mars: MarsTime) -> Seq<char> {
    ("AMT (LMST at 0\u{00B0}): ")@ + spec_clock_chars(mars.amt_millis as int / 1000) + ("  Ls")@
        + spec_degrees_chars(mars.ls_millideg as int) + ("\u{00B0}")@
}

/// The one-character string of the decimal digit `d`.
fn digit_str(d: u32) -> (s: &'static str)
    requires
        d < 10,
    ensures
        s@ == seq![digit_char(d as int)],
{
    if d == 0 {
        proof {
            reveal_strlit("0");
            assert(("0")@ =~= seq!['0']);
        }
        "0"
    } else if d == 1 {
        proof {
            reveal_strlit("1");
            assert(("1")@ =~= seq!['1']);
        }
        "1"
    } else if d == 2 {
        proof {
            reveal_strlit("2");
            assert(("2")@ =~= seq!['2']);
        }
        "2"
    } else if d == 3 {
        proof {
            reveal_strlit("3");
            assert(("3")@ =~= seq!['3']);
        }
        "3"
    } else if d == 4 {
        proof {
            reveal_strlit("4");
            assert(("4")@ =~= seq!['4']);
        }
        "4"
    } else if d == 5 {
        proof {
            reveal_strlit("5");
            assert(("5")@ =~= seq!['5']);
        }
        "5"
    } else if d == 6 {
        proof {
            reveal_strlit("6");
            assert(("6")@ =~= seq!['6']);
        }
        "6"
    } else if d == 7 {
        proof {
            reveal_strlit("7");
            assert(("7")@ =~= seq!['7']);
        }
        "7"
    } else if d == 8 {
        proof {
            reveal_strlit("8");
            assert(("8")@ =~= seq!['8']);
        }
        "8"
    } else {
        proof {
            reveal_strlit("9");
            assert(("9")@ =~= seq!['9']);
        }
        "9"
    }
}

/// Appends the two-digit zero-padded rendering of `n`.
fn push_two_digits(out: &mut String, n: u32)
    requires
        n < 100,
    ensures
        final(out)@ == old(out)@ + spec_two_digits(n as int),
{
    out.append(digit_str(n / 10));
    out.append(digit_str(n % 10));
    proof {
        assert(out@ =~= old(out)@ + spec_two_digits(n as int));
    }
}

/// Renders a time of day in seconds as `HH:MM:SS`.
pub fn clock_string(total_seconds: u32) -> (r: String)
    requires
        total_seconds < 86_400,
    ensures
        r@ == spec_clock_chars(total_seconds as int),
{
    proof {
        lemma_multiply_divide_lt(total_seconds as int, 3600, 24);
        lemma_div_pos_is_pos(total_seconds as int, 3600);
        lemma_div_pos_is_pos(total_seconds as int, 60);
        lemma_mod_division_less_than_divisor(total_seconds as int / 60, 60);
        lemma_mod_division_less_than_divisor(total_seconds as int, 60);
    }
    let mut out = String::new();
    push_two_digits(&mut out, total_seconds / 3600);
    out.append(":");
    push_two_digits(&mut out, (total_seconds / 60) % 60);
    out.append(":");
    push_two_digits(&mut out, total_seconds % 60);
    proof {
        reveal_strlit(":");
        assert((":")@ =~= seq![':']);
        assert(out@ =~= spec_clock_chars(total_seconds as int));
    }
    out
}

/// Renders the solar longitude in degrees with two decimal places,
/// rounded half-up from milli-degrees.
fn degrees_string(ls_millideg: u32) -> (r: String)
    requires
        ls_millideg < 360_000,
    ensures
        r@ == spec_degrees_chars(ls_millideg as int),
{
    let centi: u32 = (ls_millideg + 5) / 10;
    let int_part: u32 = centi / 100;
    let frac_part: u32 = centi % 100;
    proof {
        lemma_multiply_divide_lt(ls_millideg as int + 5, 10, 36_001);
        lemma_div_pos_is_pos(ls_millideg as int + 5, 10);
        lemma_multiply_divide_lt(centi as int, 100, 361);
        lemma_div_pos_is_pos(centi as int, 100);
        lemma_mod_division_less_than_divisor(centi as int, 100);
        lemma_div_pos_is_pos(int_part as int, 10);
        lemma_div_pos_is_pos(int_part as int, 100);
        lemma_multiply_divide_lt(int_part as int, 10, 100);
        lemma_multiply_divide_lt(int_part as int, 100, 10);
        lemma_mod_division_less_than_divisor(int_part as int / 10, 10);
        lemma_mod_division_less_than_divisor(int_part as int, 10);
    }
    let mut out = String::new();
    if int_part < 10 {
        out.append(digit_str(int_part));
    } else if int_part < 100 {
        out.append(digit_str(int_part / 10));
        out.append(digit_str(int_part % 10));
    } else {
        out.append(digit_str(int_part / 100));
        out.append(digit_str((int_part / 10) % 10));
        out.append(digit_str(int_part % 10));
    }
    out.append(".");
    push_two_digits(&mut out, frac_part);
    proof {
        reveal_strlit(".");
        assert((".")@ =~= seq!['.']);
        assert(out@ =~= spec_degrees_chars(ls_millideg as int));
    }
    out
}

/// Renders a Mars time in the fixed layout
/// `AMT (LMST at 0°): HH:MM:SS  LsD.DD°`.
pub fn format_mars_time(mars: &MarsTime) -> (r: String)
    requires
        mars.wf(),
    ensures
        r@ == spec_format_mars_time(*mars),
{
    proof {
        lemma_multiply_divide_lt(mars.amt_millis as int, 1000, 86_400);
        lemma_div_pos_is_pos(mars.amt_millis as int, 1000);
    }
    let mut out = String::from_str("AMT (LMST at 0\u{00B0}): ");
    let clock = clock_string(mars.amt_millis / 1000);
    out.append(clock.as_str());
    out.append("  Ls");
    let degrees = degrees_string(mars.ls_millideg);
    out.append(degrees.as_str());
    out.append("\u{00B0}");
    proof {
        assert(out@ =~= spec_format_mars_time(*mars));
    }
    out
}

} // verus!
