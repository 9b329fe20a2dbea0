use rotor_server::sensor::{Config, FREQUENCY_ERROR, USAGE_ERROR};

fn args(parts: &[&str]) -> Vec<String> {
    parts.iter().map(|s| s.to_string()).collect()
}

fn is_random_uuid(id: u128) -> bool {
    (id >> 76) & 0xf == 4 && (id >> 62) & 0x3 == 2
}

#[test]
fn build_rejects_too_few_args() {
    assert!(Config::build(&args(&["sensor"])).is_err());
}

#[test]
fn build_rejects_too_many_args() {
    assert!(Config::build(&args(&["sensor", "5", "extra"])).is_err());
}

#[test]
fn build_rejects_non_numeric_frequency() {
    assert!(matches!(
        Config::build(&args(&["sensor", "fast"])),
        Err("<frequency_ms> must be a positive integer (milliseconds).")
    ));
}

#[test]
fn build_rejects_negative_frequency() {
    assert!(matches!(
        Config::build(&args(&["sensor", "-1"])),
        Err("<frequency_ms> must be a positive integer (milliseconds).")
    ));
}

#[test]
fn build_reports_usage() {
    assert!(matches!(Config::build(&args(&[])), Err(e) if e == USAGE_ERROR));
    assert!(matches!(Config::build(&args(&["sensor"])), Err("Usage: sensor <frequency_ms>")));
}

#[test]
fn build_accepts_frequency() {
    let c = Config::build(&args(&["sensor", "250"])).unwrap();
    assert_eq!(c.frequency_ms, 250);
    assert!(is_random_uuid(c.sensor_id));
}

#[test]
fn build_accepts_plus_sign_and_leading_zeros() {
    assert_eq!(Config::build(&args(&["sensor", "+7"])).unwrap().frequency_ms, 7);
    assert_eq!(Config::build(&args(&["sensor", "007"])).unwrap().frequency_ms, 7);
    assert_eq!(Config::build(&args(&["sensor", "0"])).unwrap().frequency_ms, 0);
    assert_eq!(
        Config::build(&args(&["sensor", "4294967295"])).unwrap().frequency_ms,
        u32::MAX
    );
}

#[test]
fn build_rejects_malformed_numbers() {
    for bad in ["4294967296", " 5", "5 ", "", "+", "1_000", "--1", "+-1", "0x10"] {
        assert!(
            matches!(Config::build(&args(&["sensor", bad])), Err(e) if e == FREQUENCY_ERROR),
            "accepted {bad:?}"
        );
    }
}

#[test]
fn sensors_get_distinct_random_ids() {
    let a = Config::build(&args(&["sensor", "1"])).unwrap();
    let b = Config::build(&args(&["sensor", "1"])).unwrap();
    assert!(is_random_uuid(a.sensor_id) && is_random_uuid(b.sensor_id));
    assert_ne!(a.sensor_id, b.sensor_id);
}
