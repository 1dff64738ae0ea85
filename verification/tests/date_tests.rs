use week_counter::calculate_date_from_weeks;

#[test]
fn test_calculate_date() {
    let date = calculate_date_from_weeks(0);
    assert_eq!(date, 1704067200); // 2024-01-01 00:00:00 UTC
}

#[test]
fn test_calculate_date_one_week() {
    let date = calculate_date_from_weeks(1);
    assert_eq!(date, 1704067200 + 7 * 24 * 60 * 60);
}

#[test]
fn test_calculate_date_many_weeks() {
    assert_eq!(calculate_date_from_weeks(52), 1704067200 + 52 * 604800);
}

#[test]
fn test_calculate_date_saturates() {
    assert_eq!(calculate_date_from_weeks(u64::MAX), i64::MAX);
    assert_eq!(calculate_date_from_weeks(u64::MAX / 604800), i64::MAX);
}
