use vstd::prelude::*;
use vstd::string::*;

use crate::clock::Timestamp;
use crate::clock::parse_civil;
use crate::clock::spec_parse_civil;
use crate::date::Date;
use crate::date::parse_mdy;
use crate::date::spec_parse_mdy;
use crate::errors::Error;
use crate::errors::ErrorView;
use crate::text::contains_seq;
use crate::text::contains_str;
use crate::text::last_token;
use crate::text::last_token_str;
use crate::token::decode_bool_token;
use crate::token::spec_bool_token;

verus! {

/// One raw record of the upstream week payload, after the serialization
/// shell has turned its loosely typed fields into plain string tokens.
pub struct RawEvent {
    pub postponed: String,
    pub month: String,
    pub year: String,
    pub day: String,
    pub location: String,
    pub event_type: String,
    pub opponent: String,
    pub cancelled: String,
    pub name: String,
    pub home: String,
    pub time: String,
    pub rescheduled_date: String,
}

/// The clean, public-facing event derived from one raw record.
pub struct Event {
    pub name: String,
    pub time: Timestamp,
    pub sport: String,
    pub varsity: bool,
    pub opponent: String,
    pub location: String,
    pub rescheduled: bool,
    pub rescheduled_date: Option<Date>,
    pub cancelled: bool,
}

/// Ghost mirror of `Event`, with each text field seen as a character sequence.
#[verifier::ext_equal]
pub struct EventView {
    pub name: Seq<char>,
    pub time: Timestamp,
    pub sport: Seq<char>,
    pub varsity: bool,
    pub opponent: Seq<char>,
    pub location: Seq<char>,
    pub rescheduled: bool,
    pub rescheduled_date: Option<Date>,
    pub cancelled: bool,
}

impl View for Event {
    type V = EventView;

    open spec fn view(&self) -> EventView {
        EventView {
            name: self.name@,
            time: self.time,
            sport: self.sport@,
            varsity: self.varsity,
            opponent: self.opponent@,
            location: self.location@,
            rescheduled: self.rescheduled,
            rescheduled_date: self.rescheduled_date,
            cancelled: self.cancelled,
        }
    }
}

/// What `str::to_lowercase` returns for the given characters; the result is a
/// function of the characters alone.
pub uninterp spec fn lower_of(s: Seq<char>) -> Seq<char>;

/// Relies on str::to_lowercase: lowercases a string, for the case-insensitive
/// search that decides the varsity flag.
#[verifier::external_body]
fn lowercase(s: &str) -> (r: String)
    ensures
        r@ == lower_of(s@),
{
    s.to_lowercase()
}

/// Relies on chrono::Local::now and chrono::FixedOffset::local_minus_utc: the
/// local UTC offset, in seconds, at the moment of the call. chrono keeps every
/// fixed offset strictly within one day of zero.
#[verifier::external_body]
pub(crate) fn local_utc_offset_seconds() -> (r: i32)
    ensures
        -86400 < r < 86400,
{
    chrono::Local::now().offset().local_minus_utc()
}

/// Whether the record survives the filter: only home sport events outside the
/// middle school are kept.
pub open spec fn passes_filter(raw: RawEvent) -> bool {
    raw.event_type@ == "sport"@ && !contains_seq(raw.name@, "Middle School"@)
        && spec_bool_token(raw.home@) == Some(true)
}

/// The text whose parse failure a bad-datetime error reports: the date
/// components joined with the clock field.
pub open spec fn civil_text(raw: RawEvent) -> Seq<char> {
    raw.year@ + "-"@ + raw.month@ + "-"@ + raw.day@ + " "@ + raw.time@
}

/// What normalizing one raw record yields under the UTC offset `off`.
///
/// A record that is not a sport event, or whose name places it at the middle
/// school, is dropped before anything else is read of it; so is one marked as
/// an away game. A kept record must then parse completely: its date and clock
/// fields as a civil timestamp, its `cancelled` token as a boolean, and its
/// reschedule field — unless empty or the literal `TBA` — as a calendar date.
/// The first failure, in that order, is the record's error.
pub open spec fn spec_normalize(raw: RawEvent, off: int) -> Result<Option<EventView>, ErrorView> {
    if raw.event_type@ != "sport"@ || contains_seq(raw.name@, "Middle School"@) {
        Ok(None)
    } else if spec_bool_token(raw.home@) is None {
        Err(ErrorView::InvalidToken(raw.home@))
    } else if spec_bool_token(raw.home@) == Some(false) {
        Ok(None)
    } else if spec_parse_civil(raw.year@, raw.month@, raw.day@, raw.time@, off) is None {
        Err(ErrorView::DateParse(civil_text(raw)))
    } else if spec_bool_token(raw.cancelled@) is None {
        Err(ErrorView::InvalidToken(raw.cancelled@))
    } else if raw.rescheduled_date@.len() != 0 && raw.rescheduled_date@ != "TBA"@
        && spec_parse_mdy(raw.rescheduled_date@) is None {
        Err(ErrorView::DateParse(raw.rescheduled_date@))
    } else {
        Ok(
            Some(
                EventView {
                    name: raw.name@,
                    time: spec_parse_civil(raw.year@, raw.month@, raw.day@, raw.time@, off)->Some_0,
                    sport: last_token(raw.name@),
                    varsity: contains_seq(lower_of(raw.name@), "varsity"@),
                    opponent: raw.opponent@,
                    location: raw.location@,
                    rescheduled: raw.rescheduled_date@.len() != 0,
                    rescheduled_date: if raw.rescheduled_date@.len() == 0 || raw.rescheduled_date@
                        == "TBA"@ {
                        None
                    } else {
                        Some(spec_parse_mdy(raw.rescheduled_date@)->Some_0)
                    },
                    cancelled: spec_bool_token(raw.cancelled@)->Some_0,
                },
            ),
        )
    }
}

/// The outcome of `normalize`, seen through the views of its parts.
pub open spec fn res_view(r: Result<Option<Event>, Error>) -> Result<Option<EventView>, ErrorView> {
    match r {
        Ok(Some(e)) => Ok(Some(e@)),
        Ok(None) => Ok(None),
        Err(e) => Err(e@),
    }
}

/// Converts one raw record into zero or one clean event, under the UTC offset
/// `offset_seconds`. Pure: the outcome is exactly `spec_normalize`.
pub fn normalize(raw: &RawEvent, offset_seconds: i32) -> (r: Result<Option<Event>, Error>)
    requires
        -86400 < offset_seconds < 86400,
    ensures
        res_view(r) == spec_normalize(*raw, offset_seconds as int),
{
    let sport_lit = String::from_str("sport");
    if !(raw.event_type == sport_lit) || contains_str(raw.name.as_str(), "Middle School") {
        return Ok(None);
    }
    let home = match decode_bool_token(&raw.home) {
        Ok(b) => b,
        Err(e) => {
            return Err(e);
        },
    };
    if !home {
        return Ok(None);
    }
    let time = match parse_civil(
        raw.year.as_str(),
        raw.month.as_str(),
        raw.day.as_str(),
        raw.time.as_str(),
        offset_seconds,
    ) {
        Some(t) => t,
        None => {
            let text = String::from_str(raw.year.as_str()).concat("-").concat(
                raw.month.as_str(),
            ).concat("-").concat(raw.day.as_str()).concat(" ").concat(raw.time.as_str());
            return Err(Error::DateParse(text));
        },
    };
    let cancelled = match decode_bool_token(&raw.cancelled) {
        Ok(b) => b,
        Err(e) => {
            return Err(e);
        },
    };
    let rescheduled = !raw.rescheduled_date.as_str().is_empty();
    let tba = String::from_str("TBA");
    let rescheduled_date: Option<Date> = if raw.rescheduled_date.as_str().is_empty()
        || raw.rescheduled_date == tba {
        None
    } else {
        match parse_mdy(raw.rescheduled_date.as_str()) {
            Some(d) => Some(d),
            None => {
                return Err(Error::DateParse(raw.rescheduled_date.clone()));
            },
        }
    };
    let lowered = lowercase(raw.name.as_str());
    let event = Event {
        name: raw.name.clone(),
        time,
        sport: last_token_str(raw.name.as_str()),
        varsity: contains_str(lowered.as_str(), "varsity"),
        opponent: raw.opponent.clone(),
        location: raw.location.clone(),
        rescheduled,
        rescheduled_date,
        cancelled,
    };
    proof {
        assert(res_view(Ok(Some(event))) == spec_normalize(*raw, offset_seconds as int)) by {
            assert(event@ =~= spec_normalize(*raw, offset_seconds as int)->Ok_0->Some_0);
        }
    }
    Ok(Some(event))
}

impl RawEvent {
    /// Converts this record into zero or one clean event, under the local UTC
    /// offset sampled at the moment of the call. Whatever offset the clock
    /// reports, the outcome is `spec_normalize` under some lawful offset.
    pub fn clean(&self) -> (r: Result<Option<Event>, Error>)
        ensures
            exists|off: int|
                -86400 < off < 86400 && res_view(r) == spec_normalize(*self, off),
    {
        let off = local_utc_offset_seconds();
        let r = normalize(self, off);
        proof {
            assert(-86400 < off as int && (off as int) < 86400 && res_view(r) == spec_normalize(
                *self,
                off as int,
            ));
        }
        r
    }
}

} // verus!
