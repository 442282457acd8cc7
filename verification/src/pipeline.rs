use vstd::prelude::*;

use chrono::Datelike;

use crate::date::Date;
use crate::date::date_valid;
use crate::date::days_in_month;
use crate::date::iter_next;
use crate::date::iter_prev;
use crate::date::week_bounds;
use crate::errors::Error;
use crate::errors::ErrorView;
use crate::event::Event;
use crate::event::EventView;
use crate::event::RawEvent;
use crate::event::local_utc_offset_seconds;
use crate::event::normalize;
use crate::event::spec_normalize;

verus! {

/// The views of a batch of clean events.
pub open spec fn views_of(events: Seq<Event>) -> Seq<EventView> {
    events.map_values(|e: Event| e@)
}

/// What normalizing a whole batch yields under the UTC offset `off`: the
/// clean events of the records that survive the filter, in payload order, or
/// the first hard error a record raises. No partial batch survives an error.
pub open spec fn spec_normalize_all(raws: Seq<RawEvent>, off: int) -> Result<
    Seq<EventView>,
    ErrorView,
>
    decreases raws.len(),
{
    if raws.len() == 0 {
        Ok(Seq::empty())
    } else {
        match spec_normalize(raws[0], off) {
            Err(e) => Err(e),
            Ok(head) => match spec_normalize_all(raws.drop_first(), off) {
                Err(e) => Err(e),
                Ok(rest) => Ok(
                    match head {
                        Some(v) => seq![v] + rest,
                        None => rest,
                    },
                ),
            },
        }
    }
}

/// The outcome of `normalize_all`, seen through the views of its parts.
pub open spec fn batch_view(r: Result<Vec<Event>, Error>) -> Result<Seq<EventView>, ErrorView> {
    match r {
        Ok(events) => Ok(views_of(events@)),
        Err(e) => Err(e@),
    }
}

/// Normalizes a fetched batch under the UTC offset `offset_seconds`,
/// dropping the filtered records and stopping at the first hard error.
pub fn normalize_all(raws: &Vec<RawEvent>, offset_seconds: i32) -> (r: Result<Vec<Event>, Error>)
    requires
        -86400 < offset_seconds < 86400,
    ensures
        batch_view(r) == spec_normalize_all(raws@, offset_seconds as int),
{
    let ghost off = offset_seconds as int;
    let mut out: Vec<Event> = Vec::new();
    let mut i: usize = 0;
    proof {
        assert(raws@.skip(0) =~= raws@);
        assert(views_of(out@) =~= Seq::<EventView>::empty());
    }
    while i < raws.len()
        invariant
            -86400 < offset_seconds < 86400,
            off == offset_seconds as int,
            i <= raws.len(),
            forall|rest: Seq<EventView>|
                spec_normalize_all(raws@.skip(i as int), off) == Ok::<_, ErrorView>(rest)
                    ==> spec_normalize_all(raws@, off) == Ok::<_, ErrorView>(
                    views_of(out@) + rest,
                ),
            spec_normalize_all(raws@.skip(i as int), off) matches Err(e) ==> spec_normalize_all(
                raws@,
                off,
            ) == Err::<Seq<EventView>, ErrorView>(e),
        decreases raws.len() - i,
    {
        let ghost tail = raws@.skip(i as int);
        proof {
            assert(tail.len() > 0);
            assert(tail[0] == raws@[i as int]);
            assert(tail.drop_first() =~= raws@.skip(i as int + 1));
        }
        match normalize(&raws[i], offset_seconds) {
            Err(e) => {
                proof {
                    assert(spec_normalize_all(tail, off) == Err::<Seq<EventView>, ErrorView>(e@));
                }
                return Err(e);
            },
            Ok(Some(event)) => {
                let ghost out_old = out@;
                out.push(event);
                proof {
                    assert(views_of(out@) =~= views_of(out_old) + seq![event@]) by {
                        assert(out@ =~= out_old.push(event));
                        assert(forall|k: int|
                            0 <= k < out@.len() ==> views_of(out@)[k] == #[trigger] out@[k]@);
                    }
                    assert forall|rest: Seq<EventView>|
                        spec_normalize_all(raws@.skip(i as int + 1), off) == Ok::<
                            _,
                            ErrorView,
                        >(rest) implies spec_normalize_all(raws@, off) == Ok::<_, ErrorView>(
                        views_of(out@) + rest,
                    ) by {
                        assert(spec_normalize_all(tail, off) == Ok::<_, ErrorView>(
                            seq![event@] + rest,
                        ));
                        assert(views_of(out@) + rest =~= views_of(out_old) + (seq![event@] + rest));
                    }
                }
            },
            Ok(None) => {
            },
        }
        i += 1;
    }
    proof {
        assert(raws@.skip(raws@.len() as int) =~= Seq::<RawEvent>::empty());
        assert(views_of(out@) + Seq::<EventView>::empty() =~= views_of(out@));
    }
    Ok(out)
}

/// Normalizes a whole fetched batch with the local UTC offset sampled once at
/// the moment of the call. Whatever offset the clock reports, the outcome is
/// exactly `spec_normalize_all` under some lawful offset.
pub fn clean_all(raws: &Vec<RawEvent>) -> (r: Result<Vec<Event>, Error>)
    ensures
        exists|off: int|
            -86400 < off < 86400 && batch_view(r) == spec_normalize_all(raws@, off),
{
    let off = local_utc_offset_seconds();
    let r = normalize_all(raws, off);
    proof {
        assert(-86400 < off as int && (off as int) < 86400 && batch_view(r) == spec_normalize_all(
            raws@,
            off as int,
        ));
    }
    r
}

/// Relies on chrono::Local::now, the NaiveDate field accessors of
/// chrono::Datelike, and chrono::Weekday::num_days_from_sunday: today's local
/// calendar date and how many days it lies after its week's Sunday. chrono
/// returns only real calendar dates, and its weekday count from Sunday stays
/// below seven.
#[verifier::external_body]
fn today_local() -> (r: (i32, u32, u32, u32))
    ensures
        1 <= r.1 <= 12,
        1 <= r.2 <= 31,
        r.0 >= 0 ==> r.2 as int <= days_in_month(r.0 as int, r.1 as int),
        r.3 < 7,
{
    let today = chrono::Local::now().date_naive();
    (today.year(), today.month(), today.day(), today.weekday().num_days_from_sunday())
}

/// The date range the upstream service is asked for: the week that holds
/// today's local date, Sunday through Saturday. Whatever day the clock
/// reports, the range is the seven-day window around some real calendar day,
/// as many days behind it as the day lies after its week's Sunday. `None`
/// only when the clock reports a year outside 0 through 9999, which no
/// running clock does.
pub fn current_week_range() -> (r: Option<(Date, Date)>)
    ensures
        r matches Some(p) ==> exists|today: Date, dow: int|
            {
                &&& date_valid(today)
                &&& 0 <= dow < 7
                &&& p.0 == #[trigger] iter_prev(today, dow as nat)
                &&& p.1 == iter_next(today, (6 - dow) as nat)
                &&& date_valid(p.0)
                &&& date_valid(p.1)
            },
{
    let (y, m, d, dow) = today_local();
    if y < 0 || y > 9999 {
        return None;
    }
    let today = Date { year: y as u32, month: m, day: d };
    let (start, end) = week_bounds(&today, dow);
    proof {
        let dw: int = dow as int;
        assert({
            &&& date_valid(today)
            &&& 0 <= dw
            &&& dw < 7
            &&& start == iter_prev(today, dw as nat)
            &&& end == iter_next(today, (6 - dw) as nat)
            &&& date_valid(start)
            &&& date_valid(end)
        });
    }
    Some((start, end))
}

} // verus!
