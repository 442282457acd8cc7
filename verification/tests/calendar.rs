use week_events::clock::parse_time;
use week_events::date::Date;
use week_events::date::next_day;
use week_events::date::parse_mdy;
use week_events::date::prev_day;
use week_events::date::week_bounds;
use week_events::envelope::APIResult;
use week_events::errors::Error;
use week_events::pipeline::current_week_range;
use week_events::server::CORS;
use week_events::server::rocket;
use week_events::text::contains_str;
use week_events::text::last_token_str;
use week_events::token::decode_bool_token;

fn d(year: u32, month: u32, day: u32) -> Date {
    Date { year, month, day }
}

#[test]
fn parse_mdy_accepts_real_dates() {
    assert_eq!(parse_mdy("5/10/2022"), Some(d(2022, 5, 10)));
    assert_eq!(parse_mdy("05/10/2022"), Some(d(2022, 5, 10)));
    assert_eq!(parse_mdy("12/31/1999"), Some(d(1999, 12, 31)));
    assert_eq!(parse_mdy("2/29/2024"), Some(d(2024, 2, 29)));
    assert_eq!(parse_mdy("2/29/2000"), Some(d(2000, 2, 29)));
}

#[test]
fn parse_mdy_rejects_bad_dates() {
    assert_eq!(parse_mdy("2/29/2023"), None);
    assert_eq!(parse_mdy("2/29/1900"), None);
    assert_eq!(parse_mdy("13/1/2022"), None);
    assert_eq!(parse_mdy("0/10/2022"), None);
    assert_eq!(parse_mdy("5/0/2022"), None);
    assert_eq!(parse_mdy("5/32/2022"), None);
    assert_eq!(parse_mdy("5/10/22"), None);
    assert_eq!(parse_mdy("5-10-2022"), None);
    assert_eq!(parse_mdy("TBA"), None);
    assert_eq!(parse_mdy(""), None);
}

#[test]
fn parse_time_twelve_hour_grammar() {
    assert_eq!(parse_time("4:00 PM"), Some((16, 0)));
    assert_eq!(parse_time("7:21 PM"), Some((19, 21)));
    assert_eq!(parse_time("11:59 AM"), Some((11, 59)));
    assert_eq!(parse_time("12:00 AM"), Some((0, 0)));
    assert_eq!(parse_time("12:00 PM"), Some((12, 0)));
    assert_eq!(parse_time("10:30 AM"), Some((10, 30)));
}

#[test]
fn parse_time_rejects_bad_clocks() {
    assert_eq!(parse_time("13:00 PM"), None);
    assert_eq!(parse_time("0:30 AM"), None);
    assert_eq!(parse_time("4:60 PM"), None);
    assert_eq!(parse_time("4:00PM"), None);
    assert_eq!(parse_time("4:00 pm"), None);
    assert_eq!(parse_time("4:0 PM"), None);
    assert_eq!(parse_time(""), None);
}

#[test]
fn day_stepping_handles_month_and_year_ends() {
    assert_eq!(next_day(&d(2022, 5, 3)), d(2022, 5, 4));
    assert_eq!(next_day(&d(2022, 4, 30)), d(2022, 5, 1));
    assert_eq!(next_day(&d(2022, 12, 31)), d(2023, 1, 1));
    assert_eq!(next_day(&d(2024, 2, 28)), d(2024, 2, 29));
    assert_eq!(next_day(&d(2023, 2, 28)), d(2023, 3, 1));
    assert_eq!(prev_day(&d(2022, 5, 1)), d(2022, 4, 30));
    assert_eq!(prev_day(&d(2023, 1, 1)), d(2022, 12, 31));
    assert_eq!(prev_day(&d(2024, 3, 1)), d(2024, 2, 29));
    assert_eq!(prev_day(&d(2023, 3, 1)), d(2023, 2, 28));
}

#[test]
fn week_bounds_span_sunday_through_saturday() {
    // 2022-05-03 was the Tuesday of the week of Sunday 2022-05-01.
    assert_eq!(week_bounds(&d(2022, 5, 3), 2), (d(2022, 5, 1), d(2022, 5, 7)));
    assert_eq!(week_bounds(&d(2022, 5, 1), 0), (d(2022, 5, 1), d(2022, 5, 7)));
    assert_eq!(week_bounds(&d(2022, 5, 7), 6), (d(2022, 5, 1), d(2022, 5, 7)));
    // A week that crosses a month end, around leap day.
    assert_eq!(week_bounds(&d(2024, 2, 29), 4), (d(2024, 2, 25), d(2024, 3, 2)));
}

#[test]
fn current_week_range_spans_seven_days() {
    let (start, end) = current_week_range().expect("the clock reports a usable year");
    let mut day = start;
    for _ in 0..6 {
        day = next_day(&day);
    }
    assert_eq!(day, end);
}

#[test]
fn bool_tokens_decode() {
    assert_eq!(decode_bool_token(&String::from("")).unwrap(), false);
    assert_eq!(decode_bool_token(&String::from("0")).unwrap(), false);
    assert_eq!(decode_bool_token(&String::from("1")).unwrap(), true);
    assert!(matches!(
        decode_bool_token(&String::from("2")),
        Err(Error::InvalidToken(_))
    ));
    assert!(matches!(
        decode_bool_token(&String::from("true")),
        Err(Error::InvalidToken(_))
    ));
}

#[test]
fn substring_search() {
    assert!(contains_str("Boys-Girls Varsity Outdoor Track", "Varsity"));
    assert!(!contains_str("Boys-Girls Varsity Outdoor Track", "varsity"));
    assert!(contains_str("abc", ""));
    assert!(!contains_str("ab", "abc"));
    assert!(contains_str("Middle School Baseball", "Middle School"));
}

#[test]
fn last_token_of_name() {
    assert_eq!(last_token_str("Boys-Girls Varsity Outdoor Track"), "Track");
    assert_eq!(last_token_str("Golf"), "Golf");
    assert_eq!(last_token_str("trailing space "), "");
    assert_eq!(last_token_str(""), "");
}

#[test]
fn envelope_wraps_success() {
    let r = APIResult::from_result(Ok(vec![1u32, 2, 3]));
    assert!(r.ok);
    assert_eq!(r.err, None);
    assert_eq!(r.data, Some(vec![1u32, 2, 3]));
}

#[test]
fn envelope_wraps_failure() {
    let r: APIResult<u32> = APIResult::from_result(Err(Error::InvalidToken(String::from("2"))));
    assert!(!r.ok);
    assert_eq!(r.err, Some(String::from("invalid boolean token: 2")));
    assert_eq!(r.data, None);
}

#[test]
fn error_messages_name_the_offender() {
    assert_eq!(
        Error::Transport(String::from("connection refused")).message(),
        "upstream request failed: connection refused"
    );
    assert_eq!(
        Error::Decode(String::from("no second element")).message(),
        "unexpected upstream payload: no second element"
    );
    assert_eq!(
        Error::DateParse(String::from("5/32/2022")).message(),
        "failed to parse date or time: 5/32/2022"
    );
}

#[test]
fn server_wiring_is_fixed() {
    let c = rocket();
    assert_eq!(c.address, "0.0.0.0");
    assert_eq!(c.route, "/current-week");
    let headers = CORS::headers();
    assert_eq!(headers.len(), 4);
    assert_eq!(headers[0], ("Access-Control-Allow-Origin", "*"));
    assert_eq!(headers[1], ("Access-Control-Allow-Methods", "POST, GET, PATCH, OPTIONS"));
    assert_eq!(headers[2], ("Access-Control-Allow-Headers", "*"));
    assert_eq!(headers[3], ("Access-Control-Allow-Credentials", "true"));
}
