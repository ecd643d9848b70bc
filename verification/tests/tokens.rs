use file_share::tokens::{claims_at, current_time, TOKEN_HOURS, TOKEN_SECRET};

#[test]
fn claims_expire_a_day_later() {
    let c = claims_at("alice".to_string(), 1_700_000_000).unwrap();
    assert_eq!(c.sub, "alice");
    assert_eq!(c.exp, 1_700_086_400);
    assert_eq!(TOKEN_HOURS, 24);
}

#[test]
fn claims_at_the_epoch() {
    assert_eq!(claims_at("bob".to_string(), 0).unwrap().exp, 86_400);
}

#[test]
fn claims_out_of_range_are_refused() {
    assert!(claims_at("alice".to_string(), i64::MAX - 10).is_none());
    assert!(claims_at("alice".to_string(), 8_210_298_412_799).is_none());
}

#[test]
fn claims_near_the_range_edge() {
    assert_eq!(claims_at("a".to_string(), 8_000_000_000_000).unwrap().exp, 8_000_000_086_400);
}

#[test]
fn current_time_reads_the_clock() {
    let now = std::time::SystemTime::now()
        .duration_since(std::time::UNIX_EPOCH)
        .unwrap()
        .as_secs() as i64;
    let t = current_time();
    assert!(t >= now && t <= now + 5);
}

#[test]
fn secret_is_fixed() {
    assert_eq!(TOKEN_SECRET, "my_secret_key");
}

const CHRONO_FIRST: i64 = -8_334_601_228_800;
const CHRONO_LAST: i64 = 8_210_266_876_799;

#[test]
fn claims_at_the_last_representable_expiry() {
    let c = claims_at("a".to_string(), CHRONO_LAST - 86_400).unwrap();
    assert_eq!(c.exp, CHRONO_LAST as usize);
    assert!(claims_at("a".to_string(), CHRONO_LAST - 86_399).is_none());
}

#[test]
fn claims_at_the_first_representable_instant() {
    let c = claims_at("a".to_string(), CHRONO_FIRST).unwrap();
    assert_eq!(c.exp, (CHRONO_FIRST + 86_400) as usize);
    assert!(claims_at("a".to_string(), CHRONO_FIRST - 1).is_none());
}
