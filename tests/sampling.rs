use logstore::error::LogError;
use logstore::query::BindValue;
use logstore::sampler::{count_query, draw_offset, finish_sample, offset_fetch_query, LineFilter};
use logstore::stream::{RowEvent, StreamState};

fn channel(c: &str) -> LineFilter {
    LineFilter { channel_id: c.to_string(), user_id: None }
}

fn user(c: &str, u: &str) -> LineFilter {
    LineFilter { channel_id: c.to_string(), user_id: Some(u.to_string()) }
}

fn text(s: &str) -> BindValue {
    BindValue::Text(s.to_string())
}

#[test]
fn empty_set_is_not_found() {
    for _ in 0..100 {
        assert_eq!(draw_offset(0), Err(LogError::NotFound));
    }
}

#[test]
fn drawn_offset_is_in_range() {
    assert_eq!(draw_offset(1), Ok(0));
    for _ in 0..1000 {
        let o = draw_offset(7).unwrap();
        assert!(o < 7);
    }
    assert!(draw_offset(u64::MAX).unwrap() < u64::MAX);
}

#[test]
fn drawn_offsets_are_uniform() {
    // Chi-squared against uniform over 10 cells, 9 degrees of freedom;
    // 27.88 is the 0.999 quantile.
    let cells: usize = 10;
    let trials: usize = 20000;
    let mut seen = vec![0usize; cells];
    for _ in 0..trials {
        seen[draw_offset(cells as u64).unwrap() as usize] += 1;
    }
    let expected = trials as f64 / cells as f64;
    let chi2: f64 = seen.iter().map(|&n| (n as f64 - expected).powi(2) / expected).sum();
    assert!(chi2 < 27.88, "chi-squared {chi2} for {seen:?}");
}

#[test]
fn finish_passes_the_fetched_line_on() {
    assert_eq!(finish_sample(Some("hello".to_string())), Ok("hello".to_string()));
    assert_eq!(finish_sample(None), Err(LogError::NotFound));
}

#[test]
fn count_queries() {
    let c = count_query(&channel("c1"));
    assert_eq!(c.text, "SELECT count(*) FROM message WHERE channel_id = ? ");
    assert_eq!(c.binds, vec![text("c1")]);
    let u = count_query(&user("c1", "u1"));
    assert_eq!(u.text, "SELECT count(*) FROM message WHERE channel_id = ? AND user_id = ? ");
    assert_eq!(u.binds, vec![text("c1"), text("u1")]);
}

#[test]
fn offset_fetch_queries() {
    let c = offset_fetch_query(&channel("c1"), 41);
    assert_eq!(
        c.text,
        "WITH (SELECT timestamp FROM message WHERE channel_id = ? LIMIT 1 OFFSET ?) AS random_timestamp SELECT raw FROM message WHERE channel_id = ? AND timestamp = random_timestamp"
    );
    assert_eq!(c.binds, vec![text("c1"), BindValue::Count(41), text("c1")]);
    let u = offset_fetch_query(&user("c1", "u1"), 0);
    assert_eq!(u.binds, vec![text("c1"), text("u1"), BindValue::Count(0), text("c1"), text("u1")]);
    assert_eq!(u.text.matches('?').count(), 5);
}

#[test]
fn stream_yields_lines_then_ends() {
    let mut s = StreamState::new();
    assert!(s.wants_row());
    assert_eq!(s.on_event(RowEvent::Row("a".to_string())), Ok(Some("a".to_string())));
    assert_eq!(s.on_event(RowEvent::Row("b".to_string())), Ok(Some("b".to_string())));
    assert!(s.wants_row());
    assert_eq!(s.on_event(RowEvent::End), Ok(None));
    assert!(!s.wants_row());
    assert_eq!(s.on_event(RowEvent::Row("c".to_string())), Ok(None));
}

#[test]
fn stream_error_is_surfaced_once() {
    let mut s = StreamState::new();
    assert_eq!(
        s.on_event(RowEvent::Failed("broken pipe".to_string())),
        Err(LogError::Storage("broken pipe".to_string()))
    );
    assert!(!s.wants_row());
    assert_eq!(s.on_event(RowEvent::Failed("again".to_string())), Ok(None));
}
