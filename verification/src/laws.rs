use vstd::prelude::*;

use crate::clock::spec_parse_civil;
use crate::date::spec_parse_mdy;
use crate::errors::ErrorView;
use crate::event::EventView;
use crate::event::RawEvent;
use crate::event::lower_of;
use crate::event::passes_filter;
use crate::event::spec_normalize;
use crate::text::contains_seq;
use crate::text::last_token;
use crate::token::spec_bool_token;

verus! {

/// A record that is not a sport event, or that names the middle school, or
/// that is marked as an away game, normalizes to no event and no error,
/// whatever its other fields hold and under every UTC offset.
pub proof fn lemma_filtered_record_yields_none(raw: RawEvent, off: int)
    requires
        raw.event_type@ != "sport"@ || contains_seq(raw.name@, "Middle School"@)
            || spec_bool_token(raw.home@) == Some(false),
    ensures
        spec_normalize(raw, off) == Ok::<Option<EventView>, ErrorView>(None),
{
}

/// A record that survives the filter and parses cleanly normalizes to an
/// event that keeps its name, opponent and location verbatim, whose sport is
/// the last space-delimited token of the name, and whose varsity flag says
/// whether the lowercased name contains "varsity".
pub proof fn lemma_kept_record_fields(raw: RawEvent, off: int)
    requires
        passes_filter(raw),
        spec_parse_civil(raw.year@, raw.month@, raw.day@, raw.time@, off) is Some,
        spec_bool_token(raw.cancelled@) is Some,
        raw.rescheduled_date@.len() == 0 || raw.rescheduled_date@ == "TBA"@ || spec_parse_mdy(
            raw.rescheduled_date@,
        ) is Some,
    ensures
        spec_normalize(raw, off) matches Ok(ev) && ev matches Some(v) && v.name == raw.name@
            && v.sport == last_token(raw.name@) && v.varsity == contains_seq(
            lower_of(raw.name@),
            "varsity"@,
        ) && v.opponent == raw.opponent@ && v.location == raw.location@
            && v.cancelled == spec_bool_token(raw.cancelled@)->Some_0,
{
}

/// Reschedule round trip, for a kept record that parses cleanly: an empty
/// reschedule field yields an event that is not rescheduled and has no
/// reschedule date; the literal `TBA` yields one rescheduled with no date
/// fixed yet; and a real `M/D/YYYY` text yields one rescheduled to exactly
/// the day that text names.
pub proof fn lemma_reschedule_round_trip(raw: RawEvent, off: int)
    requires
        passes_filter(raw),
        spec_parse_civil(raw.year@, raw.month@, raw.day@, raw.time@, off) is Some,
        spec_bool_token(raw.cancelled@) is Some,
        raw.rescheduled_date@.len() == 0 || raw.rescheduled_date@ == "TBA"@ || spec_parse_mdy(
            raw.rescheduled_date@,
        ) is Some,
    ensures
        spec_normalize(raw, off) matches Ok(ev) && ev matches Some(v) && v.rescheduled == (
        raw.rescheduled_date@.len() != 0) && v.rescheduled_date == (
        if raw.rescheduled_date@.len() == 0 || raw.rescheduled_date@ == "TBA"@ {
            None
        } else {
            Some(spec_parse_mdy(raw.rescheduled_date@)->Some_0)
        }),
{
}

/// An out-of-range boolean token in the home-or-away field of a sport record
/// outside the middle school is a hard invalid-token error carrying that
/// token, never a silent default.
pub proof fn lemma_bad_home_token_fails(raw: RawEvent, off: int)
    requires
        raw.event_type@ == "sport"@,
        !contains_seq(raw.name@, "Middle School"@),
        spec_bool_token(raw.home@) is None,
    ensures
        spec_normalize(raw, off) == Err::<Option<EventView>, ErrorView>(
            ErrorView::InvalidToken(raw.home@),
        ),
{
}

/// Likewise for the cancelled field of a kept record whose timestamp parsed:
/// an out-of-range token fails the record with an invalid-token error.
pub proof fn lemma_bad_cancelled_token_fails(raw: RawEvent, off: int)
    requires
        passes_filter(raw),
        spec_parse_civil(raw.year@, raw.month@, raw.day@, raw.time@, off) is Some,
        spec_bool_token(raw.cancelled@) is None,
    ensures
        spec_normalize(raw, off) == Err::<Option<EventView>, ErrorView>(
            ErrorView::InvalidToken(raw.cancelled@),
        ),
{
}

} // verus!
