use week_counter::Database;

// 2024-01-01 00:00:00 UTC and the day after.
const DAY1: i64 = 1704067200;
const DAY2: i64 = DAY1 + 86400;

#[test]
fn empty_store_reads_zero() {
    let db = Database::new_temporary().unwrap();
    assert_eq!(db.get_week_count().unwrap(), 0);
    let data = db.get_week_data().unwrap();
    assert_eq!(data.week_count, 0);
    assert_eq!(data.last_click_time, None);
}

#[test]
fn unconditional_increments_add_up() {
    let mut db = Database::new_temporary().unwrap();
    for expected in 1u64..=5 {
        assert_eq!(db.increment_week().unwrap(), expected);
    }
    assert_eq!(db.get_week_count().unwrap(), 5);
}

#[test]
fn unconditional_increment_leaves_click_time_untouched() {
    let mut db = Database::new_temporary().unwrap();
    assert_eq!(db.increment_week().unwrap(), 1);
    assert_eq!(db.get_week_data().unwrap().last_click_time, None);
    assert!(db.increment_week_with_ip_check_at("A", DAY1).unwrap());
    assert_eq!(db.get_week_data().unwrap().last_click_time, Some(DAY1));
    assert_eq!(db.increment_week().unwrap(), 3);
    // The unconditional path must not move the stamp.
    assert_eq!(db.get_week_data().unwrap().last_click_time, Some(DAY1));
}

#[test]
fn conditional_then_unconditional_flow() {
    let mut db = Database::new_temporary().unwrap();
    assert_eq!(db.increment_week_with_ip_check_at("A", DAY1).unwrap(), true);
    assert_eq!(db.get_week_count().unwrap(), 1);
    // Same identity, same UTC date: not counted again.
    assert_eq!(db.increment_week_with_ip_check_at("A", DAY1 + 3600).unwrap(), false);
    assert_eq!(db.get_week_count().unwrap(), 1);
    // Another identity on the same date is counted.
    assert_eq!(db.increment_week_with_ip_check_at("B", DAY1 + 60).unwrap(), true);
    assert_eq!(db.get_week_count().unwrap(), 2);
    // The unconditional path always counts.
    assert_eq!(db.increment_week().unwrap(), 3);
    assert_eq!(db.get_week_count().unwrap(), 3);
}

#[test]
fn date_based_gating_across_days() {
    let mut db = Database::new_temporary().unwrap();
    assert_eq!(db.increment_week_with_ip_check_at("A", DAY1 + 86000).unwrap(), true);
    assert_eq!(db.get_week_count().unwrap(), 1);
    // The next call is less than 24 hours later but on the next UTC
    // calendar date: counted again.
    assert_eq!(db.increment_week_with_ip_check_at("A", DAY2 + 10).unwrap(), true);
    assert_eq!(db.get_week_count().unwrap(), 2);
    // Later the same date: gated.
    assert_eq!(db.increment_week_with_ip_check_at("A", DAY2 + 80000).unwrap(), false);
    assert_eq!(db.get_week_count().unwrap(), 2);
}

#[test]
fn count_agrees_with_record() {
    let mut db = Database::new_temporary().unwrap();
    assert_eq!(db.get_week_count().unwrap(), db.get_week_data().unwrap().week_count);
    db.increment_week().unwrap();
    db.increment_week_with_ip_check_at("A", DAY1).unwrap();
    assert_eq!(db.get_week_count().unwrap(), db.get_week_data().unwrap().week_count);
    assert_eq!(db.get_week_data().unwrap().week_count, 2);
}

#[test]
fn reset_then_zero() {
    let mut db = Database::new_temporary().unwrap();
    db.increment_week().unwrap();
    db.increment_week_with_ip_check_at("A", DAY1).unwrap();
    assert_eq!(db.get_week_count().unwrap(), 2);
    db.reset_weeks().unwrap();
    assert_eq!(db.get_week_count().unwrap(), 0);
    assert_eq!(db.get_week_data().unwrap().last_click_time, None);
    // Visit markers survive a reset: the same identity is still gated on
    // the same date.
    assert_eq!(db.increment_week_with_ip_check_at("A", DAY1 + 30).unwrap(), false);
    assert_eq!(db.get_week_count().unwrap(), 0);
}

#[test]
fn flush_succeeds() {
    let mut db = Database::new_temporary().unwrap();
    db.increment_week().unwrap();
    db.flush().unwrap();
    assert_eq!(db.get_week_count().unwrap(), 1);
}

#[test]
fn clock_driven_conditional_increment() {
    let mut db = Database::new_temporary().unwrap();
    assert_eq!(db.increment_week_with_ip_check("Z").unwrap(), true);
    // A second visit from the same identity within the same UTC date is
    // not counted.
    assert_eq!(db.increment_week_with_ip_check("Z").unwrap(), false);
    assert_eq!(db.get_week_count().unwrap(), 1);
}

#[test]
fn gating_handles_pre_epoch_times() {
    let mut db = Database::new_temporary().unwrap();
    // 1969-12-31T23:59:55 UTC.
    assert_eq!(db.increment_week_with_ip_check_at("A", -5).unwrap(), true);
    // Five seconds earlier, still 1969-12-31: gated.
    assert_eq!(db.increment_week_with_ip_check_at("A", -10).unwrap(), false);
    // 1969-12-30 is another calendar date: counted.
    assert_eq!(db.increment_week_with_ip_check_at("A", -86405).unwrap(), true);
    assert_eq!(db.get_week_count().unwrap(), 2);
}

#[test]
fn empty_identity_is_an_identity() {
    let mut db = Database::new_temporary().unwrap();
    assert_eq!(db.increment_week_with_ip_check_at("", DAY1).unwrap(), true);
    assert_eq!(db.increment_week_with_ip_check_at("", DAY1 + 1).unwrap(), false);
    assert_eq!(db.increment_week_with_ip_check_at("A", DAY1 + 1).unwrap(), true);
    assert_eq!(db.get_week_count().unwrap(), 2);
}
