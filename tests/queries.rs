use logstore::bucket::{ChannelLogDate, UserLogDate};
use logstore::query::{
    apply_limit_offset, channel_discovery_query, channel_scan_query, delete_user_query,
    user_discovery_query, user_scan_query, BindValue,
};

fn text(s: &str) -> BindValue {
    BindValue::Text(s.to_string())
}

#[test]
fn limit_offset_neither() {
    let mut q = String::from("SELECT 1");
    apply_limit_offset(&mut q, None, None);
    assert_eq!(q, "SELECT 1");
}

#[test]
fn limit_offset_limit_only() {
    let mut q = String::from("SELECT 1");
    apply_limit_offset(&mut q, Some(25), None);
    assert_eq!(q, "SELECT 1 LIMIT 25");
}

#[test]
fn limit_offset_offset_only() {
    let mut q = String::from("SELECT 1");
    apply_limit_offset(&mut q, None, Some(10));
    assert_eq!(q, "SELECT 1 OFFSET 10");
}

#[test]
fn limit_offset_both_limit_first() {
    let mut q = String::from("SELECT 1");
    apply_limit_offset(&mut q, Some(0), Some(18446744073709551615));
    assert_eq!(q, "SELECT 1 LIMIT 0 OFFSET 18446744073709551615");
}

#[test]
fn channel_scan_descending_with_limit() {
    let date = ChannelLogDate { year: 2024, month: 1, day: 5 };
    let q = channel_scan_query("c1", date, true, Some(2), None);
    assert_eq!(
        q.text,
        "SELECT raw FROM message WHERE channel_id = ? AND toStartOfDay(timestamp) = ? ORDER BY timestamp DESC LIMIT 2"
    );
    assert_eq!(q.binds, vec![text("c1"), text("2024-01-05")]);
}

#[test]
fn channel_scan_ascending_and_descending_differ_only_in_direction() {
    let date = ChannelLogDate { year: 2023, month: 12, day: 31 };
    let asc = channel_scan_query("c1", date, false, None, Some(3));
    let desc = channel_scan_query("c1", date, true, None, Some(3));
    assert_eq!(asc.text.replace(" ASC", " DESC"), desc.text);
    assert!(asc.text.ends_with("ORDER BY timestamp ASC OFFSET 3"));
    assert_eq!(asc.binds, desc.binds);
    assert_eq!(asc.binds[1], text("2023-12-31"));
}

#[test]
fn user_scan_binds_month_start() {
    let date = UserLogDate { year: 2022, month: 3 };
    let q = user_scan_query("chan", "user", date, false, Some(100), Some(200));
    assert_eq!(
        q.text,
        "SELECT raw FROM message WHERE channel_id = ? AND user_id = ? AND toStartOfMonth(timestamp) = ? ORDER BY timestamp ASC LIMIT 100 OFFSET 200"
    );
    assert_eq!(q.binds, vec![text("chan"), text("user"), text("2022-03-1")]);
}

#[test]
fn bucket_strings_pad_month_and_day() {
    assert_eq!(ChannelLogDate { year: 2024, month: 11, day: 9 }.to_bucket_string(), "2024-11-09");
    assert_eq!(UserLogDate { year: 999, month: 12 }.to_bucket_string(), "999-12-1");
}

#[test]
fn caller_text_is_bound_not_interpolated() {
    let q = channel_scan_query("x' OR 1=1 --", ChannelLogDate { year: 2024, month: 1, day: 1 }, false, None, None);
    assert!(!q.text.contains("OR 1=1"));
    assert_eq!(q.binds[0], text("x' OR 1=1 --"));
}

#[test]
fn discovery_queries_group_newest_first() {
    let c = channel_discovery_query("c1");
    assert_eq!(
        c.text,
        "SELECT toDateTime(toStartOfDay(timestamp)) AS date FROM message WHERE channel_id = ? GROUP BY date ORDER BY date DESC"
    );
    assert_eq!(c.binds, vec![text("c1")]);
    let u = user_discovery_query("c1", "u1");
    assert!(u.text.contains("toStartOfMonth(timestamp)"));
    assert!(u.text.ends_with("GROUP BY date ORDER BY date DESC"));
    assert_eq!(u.binds, vec![text("c1"), text("u1")]);
}

#[test]
fn delete_is_by_user_only() {
    let q = delete_user_query("u1");
    assert_eq!(q.text, "ALTER TABLE message DELETE WHERE user_id = ?");
    assert_eq!(q.binds, vec![text("u1")]);
}
