//! Conversion of an Earth instant to Mars time.
//!
//! An Earth instant is a Unix timestamp in whole seconds. The conversion
//! works in exact fixed-point units:
//!
//! - elapsed time in microseconds, so one sol (88775.244 s) is the exact
//!   integer `88_775_244_000`;
//! - angles in micro-degrees, so the published orbital constants
//!   (0.089920 degrees per day, 0.52402075 degrees per Julian century)
//!   become the exact fractions 281/270 and 2_096_083/12_623_040_000
//!   micro-degrees per second;
//! - Areocentric Mean Time in Mars-milliseconds of the sol, one sol being
//!   24 Mars hours of 3_600_000 Mars-milliseconds each, so the scale from
//!   sol-microseconds is the exact fraction 800/821_993.
//!
//! Only the trigonometric perturbation of the solar longitude cannot be
//! computed in integers; callers evaluate that term (a bounded combination
//! of two sines) and pass it in micro-degrees, and the assembly here is
//! proved to normalize it into [0, 360) degrees whatever value arrives.

use vstd::prelude::*;
use vstd::arithmetic::div_mod::lemma_add_mod_noop;
use vstd::arithmetic::div_mod::lemma_div_pos_is_pos;
use vstd::arithmetic::div_mod::lemma_fundamental_div_mod;
use vstd::arithmetic::div_mod::lemma_fundamental_div_mod_converse;
use vstd::arithmetic::div_mod::lemma_mod_multiples_vanish;
use vstd::arithmetic::div_mod::lemma_multiply_divide_lt;
use crate::modular::ediv_i64;
use crate::modular::emod_i64;

verus! {

/// One Mars sol, 88775.244 Earth seconds, in microseconds.
pub const SOL_MICROS: i64 = 88_775_244_000;

/// The Mars epoch JD 2451549.5 (2000-01-06 00:00:00 UTC) as a Unix timestamp.
pub const MARS_EPOCH_UNIX: i64 = 947_116_800;

/// The J2000 epoch JD 2451545.0 (2000-01-01 12:00:00 UTC) as a Unix timestamp.
pub const J2000_UNIX: i64 = 946_728_000;

/// Julian date of the Unix epoch (JD 2440587.5) scaled by 86400, so that
/// the Julian date of any instant in the same scale is this plus its
/// Unix seconds.
pub const JD_UNIX_EPOCH_SCALED: i64 = 210_866_760_000;

/// Calibration offset of the sol count, -0.00018518 sol expressed to the
/// microsecond. It has no documented derivation; it is kept as a named,
/// overridable constant rather than folded into any formula.
pub const MIDNIGHT_OFFSET_MICROS: i64 = -16_439_400;

/// Mars-milliseconds in a sol: 24 Mars hours of 3600 Mars-seconds.
pub const MARS_MILLIS_PER_SOL: u32 = 86_400_000;

/// Micro-degrees in a full turn.
pub const TURN_MICRODEG: i64 = 360_000_000;

/// Earliest accepted instant, about 126,000 years before the Unix epoch.
/// The bound is what keeps every scaled product inside an `i64`.
pub const MIN_UNIX_SECONDS: i64 = -4_000_000_000_000;

/// Latest accepted instant, about 126,000 years after the Unix epoch.
pub const MAX_UNIX_SECONDS: i64 = 4_000_000_000_000;

/// Mars time of an Earth instant: Areocentric Mean Time (the mean solar
/// time at the 0-degree meridian) and areocentric solar longitude.
#[derive(Clone, Copy, Debug, PartialEq, Eq, Structural)]
pub struct MarsTime {
    /// Mars-milliseconds since the start of the sol, in [0, 86_400_000).
    pub amt_millis: u32,
    /// Solar longitude in milli-degrees, in [0, 360_000).
    pub ls_millideg: u32,
}

impl MarsTime {
    /// The invariant of every converted value: a time of sol below 24 Mars
    /// hours and a solar longitude below a full turn.
    pub open spec fn wf(self) -> bool {
        self.amt_millis < MARS_MILLIS_PER_SOL && self.ls_millideg < 360_000
    }
}

/// Microseconds from the Mars epoch to the given instant, with the
/// calibration offset already applied.
pub open spec fn spec_elapsed_micros(unix_seconds: int) -> int {
    (unix_seconds - MARS_EPOCH_UNIX) * 1_000_000 + MIDNIGHT_OFFSET_MICROS
}

/// Time of sol in microseconds: the elapsed time reduced into one sol,
/// always non-negative.
pub open spec fn spec_time_of_sol_micros(elapsed_micros: int) -> int {
    elapsed_micros % (SOL_MICROS as int)
}

/// Areocentric Mean Time in Mars-milliseconds of the sol.
pub open spec fn spec_amt_millis(unix_seconds: int) -> int {
    spec_time_of_sol_micros(spec_elapsed_micros(unix_seconds)) * 800 / 821_993
}

/// The linear drift angle of the solar-longitude approximation,
/// 19.3870 + 0.089920 * (days since the Mars epoch) degrees, in
/// micro-degrees rounded toward minus infinity.
pub open spec fn spec_alpha_microdeg(unix_seconds: int) -> int {
    19_387_000 + (unix_seconds - MARS_EPOCH_UNIX) * 281 / 270
}

/// The mean anomaly of the approximation, 19.3870 + 0.52402075 * (Julian
/// centuries since J2000) degrees, in micro-degrees rounded toward minus
/// infinity.
pub open spec fn spec_anomaly_microdeg(unix_seconds: int) -> int {
    19_387_000 + (unix_seconds - J2000_UNIX) * 2_096_083 / 12_623_040_000
}

/// Solar longitude in micro-degrees: the drift angle plus the
/// trigonometric perturbation plus half a turn, reduced into [0, 360)
/// degrees.
pub open spec fn spec_ls_microdeg(unix_seconds: int, perturbation_microdeg: int) -> int {
    (spec_alpha_microdeg(unix_seconds) + perturbation_microdeg + 180_000_000) % (
    TURN_MICRODEG as int)
}

/// Solar longitude in milli-degrees, the precision kept in `MarsTime`.
pub open spec fn spec_ls_millideg(unix_seconds: int, perturbation_microdeg: int) -> int {
    spec_ls_microdeg(unix_seconds, perturbation_microdeg) / 1000
}

/// Julian date of the instant, scaled by 86400 (one unit per second):
/// JD = 2440587.5 + unix_seconds / 86400.
pub fn julian_date_scaled(unix_seconds: i64) -> (jd_scaled: i64)
    requires
        MIN_UNIX_SECONDS <= unix_seconds <= MAX_UNIX_SECONDS,
    ensures
        jd_scaled == JD_UNIX_EPOCH_SCALED + unix_seconds,
{
    JD_UNIX_EPOCH_SCALED + unix_seconds
}

/// Areocentric Mean Time of the instant, in Mars-milliseconds of the sol.
pub fn amt_millis_from_unix(unix_seconds: i64) -> (amt: u32)
    requires
        MIN_UNIX_SECONDS <= unix_seconds <= MAX_UNIX_SECONDS,
    ensures
        amt == spec_amt_millis(unix_seconds as int),
        amt < MARS_MILLIS_PER_SOL,
{
    let elapsed: i64 = (unix_seconds - MARS_EPOCH_UNIX) * 1_000_000 + MIDNIGHT_OFFSET_MICROS;
    let tod: i64 = emod_i64(elapsed, SOL_MICROS);
    proof {
        lemma_div_pos_is_pos(tod as int * 800, 821_993);
        lemma_multiply_divide_lt(tod as int * 800, 821_993, 86_400_000);
    }
    let amt: i64 = (tod * 800) / 821_993;
    amt as u32
}

/// The drift angle of the solar-longitude approximation, in micro-degrees.
fn alpha_microdeg(unix_seconds: i64) -> (alpha: i64)
    requires
        MIN_UNIX_SECONDS <= unix_seconds <= MAX_UNIX_SECONDS,
    ensures
        alpha == spec_alpha_microdeg(unix_seconds as int),
{
    let days_num: i64 = (unix_seconds - MARS_EPOCH_UNIX) * 281;
    19_387_000 + ediv_i64(days_num, 270)
}

/// The mean anomaly of the solar-longitude approximation, in micro-degrees.
fn anomaly_microdeg(unix_seconds: i64) -> (anomaly: i64)
    requires
        MIN_UNIX_SECONDS <= unix_seconds <= MAX_UNIX_SECONDS,
    ensures
        anomaly == spec_anomaly_microdeg(unix_seconds as int),
{
    let centuries_num: i64 = (unix_seconds - J2000_UNIX) * 2_096_083;
    19_387_000 + ediv_i64(centuries_num, 12_623_040_000)
}

/// The angle whose sine drives the perturbation of the solar longitude:
/// the drift angle minus the mean anomaly, in micro-degrees. Callers
/// evaluate the two sines of the published formula from this angle.
pub fn solar_longitude_delta_microdeg(unix_seconds: i64) -> (delta: i64)
    requires
        MIN_UNIX_SECONDS <= unix_seconds <= MAX_UNIX_SECONDS,
    ensures
        delta == spec_alpha_microdeg(unix_seconds as int) - spec_anomaly_microdeg(
            unix_seconds as int,
        ),
{
    alpha_microdeg(unix_seconds) - anomaly_microdeg(unix_seconds)
}

/// Solar longitude of the instant in milli-degrees, given the evaluated
/// trigonometric perturbation in micro-degrees. Any perturbation value is
/// normalized into [0, 360) degrees.
pub fn solar_longitude_millideg(unix_seconds: i64, perturbation_microdeg: i64) -> (ls: u32)
    requires
        MIN_UNIX_SECONDS <= unix_seconds <= MAX_UNIX_SECONDS,
    ensures
        ls == spec_ls_millideg(unix_seconds as int, perturbation_microdeg as int),
        ls < 360_000,
{
    let alpha: i64 = alpha_microdeg(unix_seconds);
    let base: i64 = emod_i64(alpha + 180_000_000, TURN_MICRODEG);
    let pert: i64 = emod_i64(perturbation_microdeg, TURN_MICRODEG);
    let ls_micro: i64 = emod_i64(base + pert, TURN_MICRODEG);
    proof {
        lemma_add_mod_noop(
            alpha as int + 180_000_000,
            perturbation_microdeg as int,
            TURN_MICRODEG as int,
        );
        assert(alpha as int + 180_000_000 + perturbation_microdeg as int == spec_alpha_microdeg(
            unix_seconds as int,
        ) + perturbation_microdeg as int + 180_000_000);
        lemma_div_pos_is_pos(ls_micro as int, 1000);
        lemma_multiply_divide_lt(ls_micro as int, 1000, 360_000);
    }
    let ls: i64 = ls_micro / 1000;
    ls as u32
}

/// Converts an Earth instant to Mars time: Areocentric Mean Time and
/// solar longitude, both exact functions of the instant and of the
/// supplied trigonometric perturbation.
pub fn earth_time_to_mars_time(unix_seconds: i64, perturbation_microdeg: i64) -> (mars: MarsTime)
    requires
        MIN_UNIX_SECONDS <= unix_seconds <= MAX_UNIX_SECONDS,
    ensures
        mars.amt_millis == spec_amt_millis(unix_seconds as int),
        mars.ls_millideg == spec_ls_millideg(unix_seconds as int, perturbation_microdeg as int),
        mars.wf(),
{
    MarsTime {
        amt_millis: amt_millis_from_unix(unix_seconds),
        ls_millideg: solar_longitude_millideg(unix_seconds, perturbation_microdeg),
    }
}

/// The conversion is a pure function: two results obtained from the same
/// instant and the same perturbation are identical in every bit.
pub proof fn lemma_conversion_deterministic(
    first: MarsTime,
    second: MarsTime,
    unix_seconds: int,
    perturbation_microdeg: int,
)
    requires
        first.amt_millis == spec_amt_millis(unix_seconds),
        first.ls_millideg == spec_ls_millideg(unix_seconds, perturbation_microdeg),
        second.amt_millis == spec_amt_millis(unix_seconds),
        second.ls_millideg == spec_ls_millideg(unix_seconds, perturbation_microdeg),
    ensures
        first == second,
{
}

/// Two instants exactly one sol apart have the same time of sol, so the
/// same Areocentric Mean Time.
pub proof fn lemma_time_of_sol_periodic(elapsed_micros: int)
    ensures
        spec_time_of_sol_micros(elapsed_micros + SOL_MICROS) == spec_time_of_sol_micros(
            elapsed_micros,
        ),
{
    lemma_mod_multiples_vanish(1, elapsed_micros, SOL_MICROS as int);
}

/// On the whole-second grid the shortest span of whole sols is 1000 sols,
/// 88_775_244 seconds. Over that span the Areocentric Mean Time returns
/// to the same value, and the drift angle of the solar longitude advances
/// by the fixed orbital amount, 92.392013 degrees up to one micro-degree
/// of rounding.
pub proof fn lemma_mars_time_after_thousand_sols(unix_seconds: int)
    ensures
        spec_amt_millis(unix_seconds + 88_775_244) == spec_amt_millis(unix_seconds),
        spec_alpha_microdeg(unix_seconds + 88_775_244) - spec_alpha_microdeg(unix_seconds)
            == 92_392_013 || spec_alpha_microdeg(unix_seconds + 88_775_244) - spec_alpha_microdeg(
            unix_seconds,
        ) == 92_392_014,
{
    let e = spec_elapsed_micros(unix_seconds);
    assert(spec_elapsed_micros(unix_seconds + 88_775_244) == e + 1000 * (SOL_MICROS as int));
    lemma_mod_multiples_vanish(1000, e, SOL_MICROS as int);
    let x = (unix_seconds - MARS_EPOCH_UNIX) * 281;
    assert((unix_seconds + 88_775_244 - MARS_EPOCH_UNIX) * 281 == x + 24_945_843_564);
    lemma_fundamental_div_mod(x, 270);
    let q = x / 270;
    let s = x % 270;
    if s < 216 {
        assert(x + 24_945_843_564 == (q + 92_392_013) * 270 + (s + 54)) by (nonlinear_arith)
            requires
                x == 270 * q + s,
        ;
        lemma_fundamental_div_mod_converse(x + 24_945_843_564, 270, q + 92_392_013, s + 54);
    } else {
        assert(x + 24_945_843_564 == (q + 92_392_014) * 270 + (s + 54 - 270)) by (nonlinear_arith)
            requires
                x == 270 * q + s,
        ;
        lemma_fundamental_div_mod_converse(x + 24_945_843_564, 270, q + 92_392_014, s + 54 - 270);
    }
}

} // verus!
