use mars_clock::MarsTime;
use mars_clock::converter::earth_time_to_mars_time;
use mars_clock::converter::julian_date_scaled;
use mars_clock::converter::solar_longitude_delta_microdeg;
use mars_clock::longitude::LstError;
use mars_clock::longitude::local_solar_time;
use mars_clock::longitude::lst_seconds;
use mars_clock::longitude::parse_clock;
use mars_clock::present::format_mars_time;

/// The trigonometric perturbation of the solar longitude, evaluated with
/// the published constants: 0.42184 * (2 sin d - sin(d + 1.90258)), the
/// angle in micro-degrees, the result rounded to the micro-degree.
fn perturbation_microdeg(delta_microdeg: i64) -> i64 {
    let epsilon: f64 = 0.42184;
    let tau: f64 = 1.90258;
    let delta_rad = (delta_microdeg as f64 / 1_000_000.0).to_radians();
    let pert_rad = 2.0 * epsilon * delta_rad.sin() - epsilon * (delta_rad + tau).sin();
    (pert_rad.to_degrees() * 1_000_000.0).round() as i64
}

// Reference values for the Unix epoch, fixed by the conversion constants.
const EPOCH_DELTA_MICRODEG: i64 = -985_545_833;
const EPOCH_PERTURBATION_MICRODEG: i64 = 57_816_994;
const EPOCH_AMT_MILLIS: u32 = 25_559_143;
const EPOCH_LS_MILLIDEG: u32 = 351_500;

#[test]
fn unix_epoch_golden() {
    let mars = earth_time_to_mars_time(0, EPOCH_PERTURBATION_MICRODEG);
    assert_eq!(mars.amt_millis, EPOCH_AMT_MILLIS);
    assert_eq!(mars.ls_millideg, EPOCH_LS_MILLIDEG);
    assert_eq!(
        format_mars_time(&mars),
        "AMT (LMST at 0\u{00B0}): 07:05:59  Ls351.50\u{00B0}"
    );
}

#[test]
fn unix_epoch_delta_golden() {
    assert_eq!(solar_longitude_delta_microdeg(0), EPOCH_DELTA_MICRODEG);
}

#[test]
fn unix_epoch_perturbation() {
    let pert = perturbation_microdeg(EPOCH_DELTA_MICRODEG);
    // The sine evaluation may differ by an ulp between platforms.
    assert!((pert - EPOCH_PERTURBATION_MICRODEG).abs() <= 2);
    let mars = earth_time_to_mars_time(0, pert);
    assert_eq!(mars.ls_millideg, EPOCH_LS_MILLIDEG);
}

#[test]
fn modern_instant_golden() {
    let unix: i64 = 1_700_000_000;
    assert_eq!(solar_longitude_delta_microdeg(unix), 783_431_137);
    let mars = earth_time_to_mars_time(unix, 40_055_078);
    assert_eq!(mars.amt_millis, 67_265_235);
    assert_eq!(mars.ls_millideg, 302_998);
    assert_eq!(
        format_mars_time(&mars),
        "AMT (LMST at 0\u{00B0}): 18:41:05  Ls303.00\u{00B0}"
    );
}

#[test]
fn julian_date_of_unix_epoch() {
    // JD 2440587.5 scaled by 86400.
    assert_eq!(julian_date_scaled(0), 210_866_760_000);
    // JD 2451549.5 (the Mars epoch) scaled by 86400.
    assert_eq!(julian_date_scaled(947_116_800), 211_813_876_800);
}

#[test]
fn amt_and_ls_always_in_range() {
    let instants: [i64; 7] = [
        -3_000_000_000_000,
        -1,
        0,
        947_116_800,
        1_700_000_000,
        2_500_000_000,
        3_000_000_000_000,
    ];
    for &unix in instants.iter() {
        let delta = solar_longitude_delta_microdeg(unix);
        let mars = earth_time_to_mars_time(unix, perturbation_microdeg(delta));
        assert!(mars.amt_millis < 86_400_000);
        assert!(mars.ls_millideg < 360_000);
    }
}

#[test]
fn conversion_is_deterministic() {
    let first = earth_time_to_mars_time(1_700_000_000, 123_456);
    let second = earth_time_to_mars_time(1_700_000_000, 123_456);
    assert_eq!(first, second);
    assert_eq!(format_mars_time(&first), format_mars_time(&second));
}

#[test]
fn amt_periodic_over_whole_sols() {
    // 88_775_244 seconds is exactly 1000 sols, the shortest whole-second
    // span of whole sols.
    let instants: [i64; 3] = [0, 1_700_000_000, -88_775_244];
    for &unix in instants.iter() {
        let before = earth_time_to_mars_time(unix, 0);
        let after = earth_time_to_mars_time(unix + 88_775_244, 0);
        assert_eq!(before.amt_millis, after.amt_millis);
    }
}

#[test]
fn ls_advances_over_whole_sols() {
    // Over 1000 sols the drift angle advances by about 92.392 degrees;
    // with the perturbation bounded by 72.5 degrees either way, the solar
    // longitude cannot come back to the same value.
    let unix: i64 = 1_700_000_000;
    let before = earth_time_to_mars_time(unix, perturbation_microdeg(solar_longitude_delta_microdeg(unix)));
    let after_unix = unix + 88_775_244;
    let after = earth_time_to_mars_time(
        after_unix,
        perturbation_microdeg(solar_longitude_delta_microdeg(after_unix)),
    );
    assert_ne!(before.ls_millideg, after.ls_millideg);
}

#[test]
fn lst_at_longitude_zero_is_identity() {
    assert_eq!(local_solar_time("13:14:15", 0), Ok(String::from("13:14:15")));
    assert_eq!(local_solar_time("00:00:00", 0), Ok(String::from("00:00:00")));
    assert_eq!(local_solar_time("23:59:59", 0), Ok(String::from("23:59:59")));
}

#[test]
fn lst_wraps_at_full_turn() {
    let at_zero = local_solar_time("06:30:00", 0);
    let at_full_turn = local_solar_time("06:30:00", 360_000_000);
    assert_eq!(at_zero, at_full_turn);
    assert_eq!(at_zero, Ok(String::from("06:30:00")));
    let westward = local_solar_time("06:30:00", -90_000_000);
    let same_westward = local_solar_time("06:30:00", -90_000_000 + 360_000_000);
    assert_eq!(westward, same_westward);
}

#[test]
fn lst_at_published_longitude() {
    // 285.9306 degrees east shifts the clock by 285.9306 / 360 * 24 Mars
    // hours = 19:03:43.344, so 12:00:00 becomes 07:03:43.
    assert_eq!(
        local_solar_time("12:00:00", 285_930_600),
        Ok(String::from("07:03:43"))
    );
    assert_eq!(lst_seconds(43_200, 285_930_600), 25_423);
}

#[test]
fn parse_clock_accepts_well_formed_times() {
    assert_eq!(parse_clock("00:00:00"), Ok(0));
    assert_eq!(parse_clock("12:00:00"), Ok(43_200));
    assert_eq!(parse_clock("23:59:59"), Ok(86_399));
}

#[test]
fn parse_clock_rejects_malformed_times() {
    assert_eq!(parse_clock(""), Err(LstError::InvalidTimeString));
    assert_eq!(parse_clock("12:00"), Err(LstError::InvalidTimeString));
    assert_eq!(parse_clock("12:00:00 "), Err(LstError::InvalidTimeString));
    assert_eq!(parse_clock("1200:000"), Err(LstError::InvalidTimeString));
    assert_eq!(parse_clock("ab:cd:ef"), Err(LstError::InvalidTimeString));
    assert_eq!(parse_clock("24:00:00"), Err(LstError::InvalidTimeString));
    assert_eq!(parse_clock("12:60:00"), Err(LstError::InvalidTimeString));
    assert_eq!(parse_clock("12:00:60"), Err(LstError::InvalidTimeString));
    assert_eq!(parse_clock("12-00-00"), Err(LstError::InvalidTimeString));
    assert_eq!(local_solar_time("noon", 0), Err(LstError::InvalidTimeString));
}

#[test]
fn format_zero_mars_time() {
    let mars = MarsTime {
        amt_millis: 0,
        ls_millideg: 0,
    };
    assert_eq!(
        format_mars_time(&mars),
        "AMT (LMST at 0\u{00B0}): 00:00:00  Ls0.00\u{00B0}"
    );
}

#[test]
fn format_rounds_longitude_half_up() {
    let mars = MarsTime {
        amt_millis: 45_296_000,
        ls_millideg: 45_678,
    };
    assert_eq!(
        format_mars_time(&mars),
        "AMT (LMST at 0\u{00B0}): 12:34:56  Ls45.68\u{00B0}"
    );
    let edge = MarsTime {
        amt_millis: 86_399_999,
        ls_millideg: 359_996,
    };
    // Rounding half-up at the very top of the range shows a full turn,
    // as two-decimal rounding of 359.996 does.
    assert_eq!(
        format_mars_time(&edge),
        "AMT (LMST at 0\u{00B0}): 23:59:59  Ls360.00\u{00B0}"
    );
}
