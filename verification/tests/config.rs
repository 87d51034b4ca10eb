use profcollectd::Config;

fn cfg(version: u64, interval: u64, period: u64) -> Config {
    Config { version, collection_interval_secs: interval, sampling_period_ms: period }
}

#[test]
fn to_text_writes_three_padded_lines() {
    let text = cfg(1, 2, 3).to_text();
    let expected = b"00000000000000000001\n00000000000000000002\n00000000000000000003";
    assert_eq!(text, expected.to_vec());
}

#[test]
fn to_text_of_zero_config() {
    let text = cfg(0, 0, 0).to_text();
    let expected = b"00000000000000000000\n00000000000000000000\n00000000000000000000";
    assert_eq!(text, expected.to_vec());
}

#[test]
fn round_trip_small_values() {
    let c = cfg(1, 3600, 500);
    assert_eq!(Config::from_text(&c.to_text()), Some(c));
}

#[test]
fn round_trip_zero() {
    let c = cfg(0, 0, 0);
    assert_eq!(Config::from_text(&c.to_text()), Some(c));
}

#[test]
fn round_trip_largest_values() {
    let c = cfg(u64::MAX, u64::MAX, u64::MAX);
    assert_eq!(Config::from_text(&c.to_text()), Some(c));
}

#[test]
fn from_text_rejects_empty() {
    assert_eq!(Config::from_text(b""), None);
}

#[test]
fn from_text_rejects_wrong_length() {
    assert_eq!(Config::from_text(b"1\n2\n3"), None);
}

#[test]
fn from_text_rejects_bad_separators() {
    let mut text = cfg(1, 2, 3).to_text();
    text[20] = b' ';
    assert_eq!(Config::from_text(&text), None);
}

#[test]
fn from_text_rejects_non_digit() {
    let mut text = cfg(1, 2, 3).to_text();
    text[0] = b'x';
    assert_eq!(Config::from_text(&text), None);
}

#[test]
fn from_text_rejects_value_above_u64() {
    // 2^64 has twenty digits, so the shape is right but the value does not fit.
    let text = b"18446744073709551616\n00000000000000000002\n00000000000000000003";
    assert_eq!(Config::from_text(text), None);
}

#[test]
fn from_text_accepts_u64_max_field() {
    let text = b"18446744073709551615\n00000000000000000002\n00000000000000000003";
    assert_eq!(Config::from_text(text), Some(cfg(u64::MAX, 2, 3)));
}

#[test]
fn differing_configs_are_unequal() {
    assert_ne!(cfg(1, 2, 3), cfg(1, 2, 4));
    assert_eq!(cfg(1, 2, 3), cfg(1, 2, 3));
}
