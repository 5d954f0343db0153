use ktv_casting::timefmt::{format_hms, is_unknown_time, parse_time_str};
use ktv_casting::monitor::remaining_secs;

#[test]
fn unknown_time_sentinels() {
    assert!(is_unknown_time(""));
    assert!(is_unknown_time("00:00:00"));
    assert!(is_unknown_time("0:00:00"));
    assert!(is_unknown_time("NOT_IMPLEMENTED"));
    assert!(is_unknown_time("not_implemented"));
    assert!(is_unknown_time("  Not_Implemented "));
    assert!(is_unknown_time("   "));
    assert!(!is_unknown_time("00:00:05"));
    assert!(!is_unknown_time("NOT_IMPLEMENTED_YET"));
}

#[test]
fn parses_the_four_shapes() {
    assert_eq!(parse_time_str("01:02:03"), Ok(3723));
    assert_eq!(parse_time_str("1:02:03"), Ok(3723));
    assert_eq!(parse_time_str("0:00:01"), Ok(1));
    assert_eq!(parse_time_str("02:03"), Ok(123));
    assert_eq!(parse_time_str("59"), Ok(59));
    assert_eq!(parse_time_str(" 00:01:00\n"), Ok(60));
    assert_eq!(parse_time_str("23:59:59"), Ok(86399));
}

#[test]
fn rejects_malformed_times() {
    assert!(parse_time_str("").is_err());
    assert!(parse_time_str("24:00:00").is_err());
    assert!(parse_time_str("00:60:00").is_err());
    assert!(parse_time_str("00:00:60").is_err());
    assert!(parse_time_str("1:2:3:4").is_err());
    assert!(parse_time_str("001:00:00").is_err());
    assert!(parse_time_str("ab:cd").is_err());
    assert!(parse_time_str("10::00").is_err());
    assert!(parse_time_str("NOT_IMPLEMENTED").is_err());
}

#[test]
fn formats_as_hh_mm_ss() {
    assert_eq!(format_hms(0), "00:00:00");
    assert_eq!(format_hms(59), "00:00:59");
    assert_eq!(format_hms(3723), "01:02:03");
    assert_eq!(format_hms(86399), "23:59:59");
    assert_eq!(format_hms(360000), "100:00:00");
}

#[test]
fn reading_then_writing_keeps_hh_mm_ss_text() {
    for s in ["00:00:00", "00:00:59", "01:02:03", "12:34:56", "23:59:59", "09:05:07"] {
        let n = parse_time_str(s).unwrap();
        assert_eq!(format_hms(n), s);
    }
    for s in ["1:02:03", "02:03", "7", "0:00:01"] {
        let once = format_hms(parse_time_str(s).unwrap());
        let twice = format_hms(parse_time_str(&once).unwrap());
        assert_eq!(once, twice);
    }
}

#[test]
fn remaining_time_never_underflows() {
    assert_eq!(remaining_secs(58, 60), 2);
    assert_eq!(remaining_secs(61, 60), 0);
    assert_eq!(remaining_secs(60, 60), 0);
    assert_eq!(remaining_secs(0, 0), 0);
}
