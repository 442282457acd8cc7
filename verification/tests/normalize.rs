use week_events::clock::Timestamp;
use week_events::date::Date;
use week_events::errors::Error;
use week_events::event::Event;
use week_events::event::RawEvent;
use week_events::event::normalize;
use week_events::pipeline::normalize_all;

fn track_record() -> RawEvent {
    RawEvent {
        postponed: String::from("0"),
        month: String::from("5"),
        year: String::from("2022"),
        day: String::from("3"),
        location: String::from("Sanborn Regional High School"),
        event_type: String::from("sport"),
        opponent: String::from("Multiple Opponents"),
        cancelled: String::from("0"),
        name: String::from("Boys-Girls Varsity Outdoor Track"),
        home: String::from("1"),
        time: String::from("4:00 PM"),
        rescheduled_date: String::from(""),
    }
}

fn school_record() -> RawEvent {
    RawEvent {
        postponed: String::from("0"),
        month: String::from("5"),
        year: String::from("2022"),
        day: String::from("3"),
        location: String::from("Goffstown High School"),
        event_type: String::from("school"),
        opponent: String::from(""),
        cancelled: String::from("0"),
        name: String::from("School Board Meeting"),
        home: String::from("0"),
        time: String::from("7:21 PM"),
        rescheduled_date: String::from(""),
    }
}

fn assert_track_event(e: &Event) {
    assert_eq!(e.name, "Boys-Girls Varsity Outdoor Track");
    assert_eq!(e.time.date, Date { year: 2022, month: 5, day: 3 });
    assert_eq!(e.time.hour, 16);
    assert_eq!(e.time.minute, 0);
    assert_eq!(e.sport, "Track");
    assert!(e.varsity);
    assert_eq!(e.opponent, "Multiple Opponents");
    assert_eq!(e.location, "Sanborn Regional High School");
    assert!(!e.rescheduled);
    assert_eq!(e.rescheduled_date, None);
    assert!(!e.cancelled);
}

#[test]
fn clean() {
    let cleaned = track_record().clean().unwrap();
    let event = cleaned.expect("a home sport event must be kept");
    assert_track_event(&event);

    assert!(school_record().clean().unwrap().is_none());
}

#[test]
fn scenario_track_meet_eastern_offset() {
    let offset = -4 * 3600;
    let event = normalize(&track_record(), offset).unwrap().unwrap();
    assert_track_event(&event);
    assert_eq!(
        event.time,
        Timestamp { date: Date { year: 2022, month: 5, day: 3 }, hour: 16, minute: 0, offset_seconds: offset }
    );
}

#[test]
fn non_sport_record_is_dropped() {
    let mut raw = school_record();
    // Even with every other field looking like a home game, the type decides.
    raw.home = String::from("1");
    raw.event_type = String::from("school");
    assert!(normalize(&raw, 0).unwrap().is_none());
}

#[test]
fn middle_school_record_is_dropped() {
    let mut raw = track_record();
    raw.name = String::from("Middle School Baseball");
    assert!(normalize(&raw, 0).unwrap().is_none());
}

#[test]
fn away_game_is_dropped() {
    let mut raw = track_record();
    raw.home = String::from("0");
    assert!(normalize(&raw, 0).unwrap().is_none());
    raw.home = String::from("");
    assert!(normalize(&raw, 0).unwrap().is_none());
}

#[test]
fn out_of_range_home_token_fails() {
    let mut raw = track_record();
    raw.home = String::from("2");
    match normalize(&raw, 0) {
        Err(Error::InvalidToken(t)) => assert_eq!(t, "2"),
        other => panic!("expected an invalid-token error, got {:?}", other.is_ok()),
    }
}

#[test]
fn out_of_range_cancelled_token_fails() {
    let mut raw = track_record();
    raw.cancelled = String::from("7");
    match normalize(&raw, 0) {
        Err(Error::InvalidToken(t)) => assert_eq!(t, "7"),
        other => panic!("expected an invalid-token error, got {:?}", other.is_ok()),
    }
}

#[test]
fn filter_outranks_bad_tokens() {
    // A record dropped by the filter never reaches the token decode.
    let mut raw = school_record();
    raw.cancelled = String::from("9");
    assert!(normalize(&raw, 0).unwrap().is_none());
}

#[test]
fn bad_month_fails_datetime_parse() {
    let mut raw = track_record();
    raw.month = String::from("13");
    match normalize(&raw, 0) {
        Err(Error::DateParse(t)) => assert_eq!(t, "2022-13-3 4:00 PM"),
        _ => panic!("expected a date-parse error"),
    }
}

#[test]
fn bad_hour_fails_datetime_parse() {
    let mut raw = track_record();
    raw.time = String::from("25:00 PM");
    assert!(matches!(normalize(&raw, 0), Err(Error::DateParse(_))));
}

#[test]
fn reschedule_round_trip() {
    let mut raw = track_record();

    raw.rescheduled_date = String::from("");
    let e = normalize(&raw, 0).unwrap().unwrap();
    assert!(!e.rescheduled);
    assert_eq!(e.rescheduled_date, None);

    raw.rescheduled_date = String::from("TBA");
    let e = normalize(&raw, 0).unwrap().unwrap();
    assert!(e.rescheduled);
    assert_eq!(e.rescheduled_date, None);

    raw.rescheduled_date = String::from("5/10/2022");
    let e = normalize(&raw, 0).unwrap().unwrap();
    assert!(e.rescheduled);
    assert_eq!(e.rescheduled_date, Some(Date { year: 2022, month: 5, day: 10 }));
}

#[test]
fn bad_reschedule_date_fails() {
    let mut raw = track_record();
    raw.rescheduled_date = String::from("5/32/2022");
    match normalize(&raw, 0) {
        Err(Error::DateParse(t)) => assert_eq!(t, "5/32/2022"),
        _ => panic!("expected a date-parse error"),
    }
}

#[test]
fn varsity_flag_is_case_insensitive() {
    let mut raw = track_record();
    raw.name = String::from("VARSITY Softball");
    let e = normalize(&raw, 0).unwrap().unwrap();
    assert!(e.varsity);
    assert_eq!(e.sport, "Softball");

    raw.name = String::from("JV Softball");
    let e = normalize(&raw, 0).unwrap().unwrap();
    assert!(!e.varsity);
}

#[test]
fn sport_is_last_token_of_name() {
    let mut raw = track_record();
    raw.name = String::from("Girls Varsity Tennis");
    let e = normalize(&raw, 0).unwrap().unwrap();
    assert_eq!(e.sport, "Tennis");

    raw.name = String::from("Golf");
    let e = normalize(&raw, 0).unwrap().unwrap();
    assert_eq!(e.sport, "Golf");
}

#[test]
fn twelve_hour_clock_noon_and_midnight() {
    let mut raw = track_record();
    raw.time = String::from("12:00 PM");
    assert_eq!(normalize(&raw, 0).unwrap().unwrap().time.hour, 12);
    raw.time = String::from("12:05 AM");
    let e = normalize(&raw, 0).unwrap().unwrap();
    assert_eq!(e.time.hour, 0);
    assert_eq!(e.time.minute, 5);
}

#[test]
fn batch_keeps_order_and_drops_filtered() {
    let batch = vec![track_record(), school_record(), track_record()];
    let events = normalize_all(&batch, 0).unwrap();
    assert_eq!(events.len(), 2);
    assert_eq!(events[0].sport, "Track");
    assert_eq!(events[1].sport, "Track");
}

#[test]
fn batch_stops_at_first_error() {
    let mut bad_home = track_record();
    bad_home.home = String::from("3");
    let mut bad_time = track_record();
    bad_time.time = String::from("oops");
    let batch = vec![bad_home, bad_time];
    match normalize_all(&batch, 0) {
        Err(Error::InvalidToken(t)) => assert_eq!(t, "3"),
        _ => panic!("expected the first record's invalid-token error"),
    }
}

#[test]
fn empty_batch_is_ok_and_empty() {
    let events = normalize_all(&Vec::new(), 0).unwrap();
    assert!(events.is_empty());
}
