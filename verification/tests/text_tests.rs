use travel_api::random::coordinate;
use travel_api::random::pick;
use travel_api::random::random_coordinate;
use travel_api::text::decimal;
use travel_api::text::fixed6;
use travel_api::text::join;
use travel_api::text::padded;
use travel_api::text::split;
use travel_api::text::strip_prefix;

#[test]
fn decimal_renders_digits() {
    assert_eq!(decimal(0), "0");
    assert_eq!(decimal(7), "7");
    assert_eq!(decimal(10), "10");
    assert_eq!(decimal(1234567890), "1234567890");
    assert_eq!(decimal(u64::MAX), "18446744073709551615");
}

#[test]
fn padded_keeps_the_last_digits() {
    assert_eq!(padded(345, 6), "000345");
    assert_eq!(padded(1234567, 6), "234567");
    assert_eq!(padded(5, 0), "");
}

#[test]
fn fixed6_pads_the_fraction() {
    assert_eq!(fixed6(0), "0.000000");
    assert_eq!(fixed6(-12_000_345), "-12.000345");
    assert_eq!(fixed6(90_000_000), "90.000000");
    assert_eq!(fixed6(-1), "-0.000001");
    assert_eq!(fixed6(i64::MIN), "-9223372036854.775808");
}

#[test]
fn coordinate_writes_latitude_then_longitude() {
    assert_eq!(coordinate(40_712_800, -74_006_000), "40.712800,-74.006000");
}

#[test]
fn random_coordinate_lies_on_the_globe() {
    for _ in 0..200 {
        let text = random_coordinate();
        let parts: Vec<&str> = text.split(',').collect();
        assert_eq!(parts.len(), 2);
        let lat: f64 = parts[0].parse().unwrap();
        let lon: f64 = parts[1].parse().unwrap();
        assert!((-90.0..=90.0).contains(&lat));
        assert!((-180.0..=180.0).contains(&lon));
    }
}

#[test]
fn draws_vary() {
    let mut seen = Vec::new();
    for _ in 0..200 {
        let index = pick(5);
        assert!(index < 5);
        if !seen.contains(&index) {
            seen.push(index);
        }
    }
    assert!(seen.len() > 1);
    assert_eq!(pick(1), 0);
}

#[test]
fn join_puts_the_separator_between() {
    let parts = vec!["a".to_string(), "b".to_string(), "c".to_string()];
    assert_eq!(join(&parts, ";"), "a;b;c");
    assert_eq!(join(&vec!["only".to_string()], ";"), "only");
    assert_eq!(join(&Vec::new(), ";"), "");
}

#[test]
fn split_keeps_empty_pieces() {
    assert_eq!(split("a;;b", ';'), vec!["a".to_string(), "".to_string(), "b".to_string()]);
    assert_eq!(split("", ';'), vec!["".to_string()]);
    assert_eq!(split(";", ';'), vec!["".to_string(), "".to_string()]);
    assert_eq!(split("1.5,2.5;3.5,4.5", ';'), vec!["1.5,2.5".to_string(), "3.5,4.5".to_string()]);
}

#[test]
fn split_undoes_join() {
    let parts = vec!["1.000000,2.000000".to_string(), "-3.500000,4.250000".to_string()];
    assert_eq!(split(&join(&parts, ";"), ';'), parts);
}

#[test]
fn strip_prefix_takes_the_scheme_off() {
    assert_eq!(strip_prefix("Bearer abc", "Bearer "), Some("abc"));
    assert_eq!(strip_prefix("Bearer ", "Bearer "), Some(""));
    assert_eq!(strip_prefix("Basic abc", "Bearer "), None);
    assert_eq!(strip_prefix("Bear", "Bearer "), None);
    assert_eq!(strip_prefix("bearer abc", "Bearer "), None);
}
