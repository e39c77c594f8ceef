use sekhmet_server::calendar::{
    event_from_parts, parse_event, parse_time, Color, EventRecord, UtcTime,
};

fn record() -> EventRecord {
    EventRecord {
        id: Some("ev1".to_string()),
        start: Some("2020-01-01T00:00:00Z".to_string()),
        end: Some("2020-01-01T01:30:00+01:00".to_string()),
        summary: Some("#sek water plants".to_string()),
        location: None,
        color_id: Some("4".to_string()),
    }
}

#[test]
fn parse_time_reads_rfc3339_in_utc() {
    let t = parse_time(&Some("2020-01-01T00:00:00Z".to_string()));
    assert_eq!(t, Some(UtcTime { seconds: 1577836800, nanos: 0 }));
    let t = parse_time(&Some("2020-01-01T01:00:00.5+01:00".to_string()));
    assert_eq!(t, Some(UtcTime { seconds: 1577836800, nanos: 500_000_000 }));
}

#[test]
fn parse_time_rejects_missing_or_bad_text() {
    assert_eq!(parse_time(&None), None);
    assert_eq!(parse_time(&Some("tomorrow".to_string())), None);
    assert_eq!(parse_time(&Some("".to_string())), None);
}

#[test]
fn parse_event_keeps_the_fields() {
    let e = parse_event(record()).unwrap();
    assert_eq!(e.id, "ev1");
    assert_eq!(e.start, UtcTime { seconds: 1577836800, nanos: 0 });
    assert_eq!(e.end, UtcTime { seconds: 1577838600, nanos: 0 });
    assert_eq!(e.summary, "#sek water plants");
    assert_eq!(e.location, "");
    assert_eq!(e.color, Some("4".to_string()));
}

#[test]
fn parse_event_needs_required_fields() {
    let mut r = record();
    r.id = None;
    assert!(parse_event(r).is_none());
    let mut r = record();
    r.summary = None;
    assert!(parse_event(r).is_none());
    let mut r = record();
    r.start = Some("not a time".to_string());
    assert!(parse_event(r).is_none());
    let mut r = record();
    r.end = None;
    assert!(parse_event(r).is_none());
    let mut r = record();
    r.location = Some("garden".to_string());
    assert_eq!(parse_event(r).unwrap().location, "garden");
}

#[test]
fn event_from_parts_uses_given_times() {
    let t = UtcTime { seconds: 5, nanos: 6 };
    let e = event_from_parts(record(), Some(t), Some(t)).unwrap();
    assert_eq!(e.start, t);
    assert_eq!(e.end, t);
    assert!(event_from_parts(record(), None, Some(t)).is_none());
    assert!(event_from_parts(record(), Some(t), None).is_none());
}

#[test]
fn set_color_changes_only_the_color() {
    let mut e = parse_event(record()).unwrap();
    e.set_color(Color::Purple);
    assert_eq!(e.color, Some("3".to_string()));
    assert_eq!(e.id, "ev1");
    assert_eq!(e.summary, "#sek water plants");
    e.set_color(Color::Red);
    assert_eq!(e.color, Some("11".to_string()));
}
