//! The calendar of a venue: one event for each entry, and the file that
//! holds them.

use vstd::prelude::*;
use vstd::string::*;
use crate::error::{ScrapeError, ScrapeErrorView};
use crate::timestamp::{local_datetime, local_time, ZONE_OFFSET_SECONDS};
use crate::venue::{entries_view, ScheduleEntry, ScheduleEntryView};

verus! {

/// icalendar's calendar: a list of components, of which this crate makes
/// events only.
#[verifier::external_type_specification]
#[verifier::external_body]
pub struct ExCalendar(icalendar::Calendar);

/// A component of an icalendar calendar.
#[verifier::external_type_specification]
#[verifier::external_body]
pub struct ExCalendarComponent(icalendar::CalendarComponent);

/// What follows the venue's title in the name of its calendar file.
pub const FILE_EXTENSION: &'static str = ".ics";

/// What stands between the shop's name and the venue's address in the
/// description of an event.
pub const LINE_BREAK: &'static str = "\n";

/// An event of an `icalendar::Calendar`, by what was set on it: summary,
/// description, location, and start and end as dates with a local time.
pub struct CalendarItem {
    pub summary: Seq<char>,
    pub description: Seq<char>,
    pub location: Seq<char>,
    pub start: chrono::NaiveDateTime,
    pub end: chrono::NaiveDateTime,
}

/// The events that were pushed to `calendar`, in the order in which they
/// were pushed.
pub uninterp spec fn calendar_events(calendar: icalendar::Calendar) -> Seq<CalendarItem>;

/// One event of a calendar, as plain values. Start and end are in seconds
/// since the Unix epoch.
#[derive(Debug, PartialEq, Eq)]
pub struct EventRecord {
    pub summary: String,
    pub description: String,
    pub location: String,
    pub start: i64,
    pub end: i64,
}

/// An [`EventRecord`] with its texts as sequences of characters.
pub struct EventRecordView {
    pub summary: Seq<char>,
    pub description: Seq<char>,
    pub location: Seq<char>,
    pub start: int,
    pub end: int,
}

impl View for EventRecord {
    type V = EventRecordView;

    open spec fn view(&self) -> EventRecordView {
        EventRecordView {
            summary: self.summary@,
            description: self.description@,
            location: self.location@,
            start: self.start as int,
            end: self.end as int,
        }
    }
}

/// What became of a venue: it has no events, or it has a calendar that is
/// to be written to a file.
#[derive(Debug, PartialEq, Eq)]
pub enum VenueOutcome {
    /// The venue has no events. No file is written for it.
    NoEvents { title: String },
    /// The venue's calendar, and the name of the file it belongs in.
    Calendar { file_name: String, contents: String },
}

/// A [`VenueOutcome`] with its texts as sequences of characters.
pub enum VenueOutcomeView {
    NoEvents { title: Seq<char> },
    Calendar { file_name: Seq<char>, contents: Seq<char> },
}

impl View for VenueOutcome {
    type V = VenueOutcomeView;

    open spec fn view(&self) -> VenueOutcomeView {
        match *self {
            VenueOutcome::NoEvents { title } => VenueOutcomeView::NoEvents { title: title@ },
            VenueOutcome::Calendar { file_name, contents } => VenueOutcomeView::Calendar {
                file_name: file_name@,
                contents: contents@,
            },
        }
    }
}

/// Events as views.
pub open spec fn events_view(events: Seq<EventRecord>) -> Seq<EventRecordView> {
    Seq::new(events.len(), |i: int| events[i]@)
}

/// A result that holds an outcome, as a view.
pub open spec fn outcome_result_view(r: Result<VenueOutcome, ScrapeError>) -> Result<
    VenueOutcomeView,
    ScrapeErrorView,
> {
    match r {
        Ok(outcome) => Ok(outcome@),
        Err(e) => Err(e@),
    }
}

/// The event of an entry: the listing's title as its summary, the shop's
/// name and the venue's address on two lines as its description, the shop's
/// address as its location, and the entry's start and end.
pub open spec fn event_of(entry: ScheduleEntryView, event_title: Seq<char>, venue_url: Seq<char>)
    -> EventRecordView {
    EventRecordView {
        summary: event_title,
        description: entry.shop_name + LINE_BREAK@ + venue_url,
        location: entry.address,
        start: entry.start_time,
        end: entry.end_time(),
    }
}

/// The events of the entries, one for each, in their order.
pub open spec fn events_of(
    entries: Seq<ScheduleEntryView>,
    event_title: Seq<char>,
    venue_url: Seq<char>,
) -> Seq<EventRecordView> {
    Seq::new(entries.len(), |i: int| event_of(entries[i], event_title, venue_url))
}

/// The name of the calendar file of the venue with the title `title`.
pub open spec fn file_name_of(title: Seq<char>) -> Seq<char> {
    title + FILE_EXTENSION@
}

/// What is pushed to the calendar for `event`: its texts, and its start and
/// end as the listing's clock shows them.
pub open spec fn item_of(event: EventRecordView) -> Result<CalendarItem, ScrapeErrorView> {
    match local_datetime(event.start, ZONE_OFFSET_SECONDS as int) {
        Some(start) => match local_datetime(event.end, ZONE_OFFSET_SECONDS as int) {
            Some(end) => Ok(
                CalendarItem {
                    summary: event.summary,
                    description: event.description,
                    location: event.location,
                    start,
                    end,
                },
            ),
            None => Err(ScrapeErrorView::UnrepresentableTime { seconds: event.end }),
        },
        None => Err(ScrapeErrorView::UnrepresentableTime { seconds: event.start }),
    }
}

/// `front`, followed by the items of `rest` if there are any; the error of
/// `rest` otherwise.
pub open spec fn prepend_items(
    front: Seq<CalendarItem>,
    rest: Result<Seq<CalendarItem>, ScrapeErrorView>,
) -> Result<Seq<CalendarItem>, ScrapeErrorView> {
    match rest {
        Ok(items) => Ok(front + items),
        Err(e) => Err(e),
    }
}

/// What is pushed to the calendar for `events`, in their order; the first
/// event whose start or end no calendar can show fails them all.
pub open spec fn items_of(events: Seq<EventRecordView>) -> Result<
    Seq<CalendarItem>,
    ScrapeErrorView,
>
    decreases events.len(),
{
    if events.len() == 0 {
        Ok(Seq::empty())
    } else {
        match item_of(events[0]) {
            Ok(item) => prepend_items(seq![item], items_of(events.drop_first())),
            Err(e) => Err(e),
        }
    }
}

/// What holds of the outcome for a venue with events whose calendar was
/// built: it names the venue's file, and holds the calendar's text or
/// reports that there is none.
pub open spec fn names_file(r: Result<VenueOutcomeView, ScrapeErrorView>, title: Seq<char>)
    -> bool {
    match r {
        Ok(VenueOutcomeView::Calendar { file_name, contents }) => file_name == file_name_of(title),
        Ok(VenueOutcomeView::NoEvents { .. }) => false,
        Err(e) => e == (ScrapeErrorView::WriteFailed { file_name: file_name_of(title) }),
    }
}

/// What holds of the outcome for a venue with the given entries.
///
/// Without entries the outcome says that there are no events. With entries
/// that a calendar can show, it names the venue's file. Otherwise it is the
/// error of the first event that no calendar can show.
pub open spec fn outcome_allowed(
    r: Result<VenueOutcomeView, ScrapeErrorView>,
    entries: Seq<ScheduleEntryView>,
    event_title: Seq<char>,
    venue_url: Seq<char>,
    title: Seq<char>,
) -> bool {
    if entries.len() == 0 {
        r == Ok::<VenueOutcomeView, ScrapeErrorView>(VenueOutcomeView::NoEvents { title })
    } else {
        match items_of(events_of(entries, event_title, venue_url)) {
            Ok(_) => names_file(r, title),
            Err(e) => r == Err::<VenueOutcomeView, ScrapeErrorView>(e),
        }
    }
}

/// Calls `icalendar::Calendar::new`: a calendar without events.
#[verifier::external_body]
pub(crate) fn new_calendar() -> (calendar: icalendar::Calendar)
    ensures
        calendar_events(calendar) == Seq::<CalendarItem>::empty(),
{
    icalendar::Calendar::new()
}

/// Makes an `icalendar::Event` with the given summary, description, location,
/// start and end, and calls `icalendar::Calendar::push` with it: the event
/// comes after those that the calendar holds.
#[verifier::external_body]
pub(crate) fn push_event(
    calendar: &mut icalendar::Calendar,
    summary: &str,
    description: &str,
    location: &str,
    start: chrono::NaiveDateTime,
    end: chrono::NaiveDateTime,
)
    ensures
        calendar_events(*final(calendar)) == calendar_events(*old(calendar)).push(
            CalendarItem {
                summary: summary@,
                description: description@,
                location: location@,
                start,
                end,
            },
        ),
{
    let mut event = icalendar::Event::new();
    icalendar::Component::summary(&mut event, summary);
    icalendar::Component::description(&mut event, description);
    icalendar::EventLike::location(&mut event, location);
    icalendar::EventLike::starts(&mut event, start);
    icalendar::EventLike::ends(&mut event, end);
    calendar.push(event);
}

/// Serializes the calendar with icalendar's `TryInto<String>`. Nothing is
/// said of the text: icalendar stamps every event with the time of the call
/// and with a random identifier.
#[verifier::external_body]
pub(crate) fn calendar_text(calendar: &icalendar::Calendar) -> (r: Option<String>) {
    let text: Result<String, std::fmt::Error> = calendar.try_into();
    text.ok()
}

/// Makes the event of an entry.
pub fn assemble_event(entry: &ScheduleEntry, event_title: &str, venue_url: &str) -> (r:
    EventRecord)
    ensures
        r@ == event_of(entry@, event_title@, venue_url@),
{
    let mut description = String::from_str(entry.shop_name());
    description.append(LINE_BREAK);
    description.append(venue_url);
    EventRecord {
        summary: String::from_str(event_title),
        description,
        location: String::from_str(entry.address()),
        start: entry.start_time(),
        end: entry.end_time(),
    }
}

/// Makes the events of a venue: one for each entry, in the entries' order.
pub fn assemble_events(entries: &Vec<ScheduleEntry>, event_title: &str, venue_url: &str) -> (r:
    Vec<EventRecord>)
    ensures
        events_view(r@) == events_of(entries_view(entries@), event_title@, venue_url@),
{
    let mut events: Vec<EventRecord> = Vec::new();
    let mut i: usize = 0;
    while i < entries.len()
        invariant
            i <= entries.len(),
            events.len() == i,
            forall|j: int|
                0 <= j < i ==> (#[trigger] events[j])@ == event_of(
                    entries[j]@,
                    event_title@,
                    venue_url@,
                ),
        decreases entries.len() - i,
    {
        events.push(assemble_event(&entries[i], event_title, venue_url));
        i += 1;
    }
    assert(events_view(events@) == events_of(entries_view(entries@), event_title@, venue_url@));
    events
}

/// Fills a calendar with the events, in their order.
pub fn build_calendar(events: &Vec<EventRecord>) -> (r: Result<icalendar::Calendar, ScrapeError>)
    ensures
        match r {
            Ok(calendar) => items_of(events_view(events@)) == Ok::<
                Seq<CalendarItem>,
                ScrapeErrorView,
            >(calendar_events(calendar)),
            Err(e) => items_of(events_view(events@)) == Err::<Seq<CalendarItem>, ScrapeErrorView>(
                e@,
            ),
        },
{
    let ghost all = events_view(events@);
    let mut calendar = new_calendar();
    let mut i: usize = 0;
    assert(all.skip(0) == all);
    assert(calendar_events(calendar) + Seq::<CalendarItem>::empty() == calendar_events(calendar));
    while i < events.len()
        invariant
            i <= events.len(),
            all == events_view(events@),
            items_of(all) == prepend_items(calendar_events(calendar), items_of(all.skip(i as int))),
        decreases events.len() - i,
    {
        let ghost before = calendar_events(calendar);
        let ghost rest = items_of(all.skip(i + 1));
        proof {
            assert(all.skip(i as int)[0] == all[i as int]);
            assert(all.skip(i as int).drop_first() == all.skip(i + 1));
        }
        let event = &events[i];
        let start = match local_time(event.start, ZONE_OFFSET_SECONDS) {
            Some(start) => start,
            None => {
                return Err(ScrapeError::UnrepresentableTime { seconds: event.start });
            },
        };
        let end = match local_time(event.end, ZONE_OFFSET_SECONDS) {
            Some(end) => end,
            None => {
                return Err(ScrapeError::UnrepresentableTime { seconds: event.end });
            },
        };
        push_event(
            &mut calendar,
            event.summary.as_str(),
            event.description.as_str(),
            event.location.as_str(),
            start,
            end,
        );
        proof {
            let item = item_of(all[i as int])->Ok_0;
            assert(calendar_events(calendar) == before.push(item));
            if rest is Ok {
                assert(before + (seq![item] + rest->Ok_0) == before.push(item) + rest->Ok_0);
            }
        }
        i += 1;
    }
    Ok(calendar)
}

/// The name of the calendar file of a venue: the venue's title, not the
/// names of its shops, and the extension of calendar files.
pub fn calendar_file_name(title: &str) -> (r: String)
    ensures
        r@ == file_name_of(title@),
{
    let mut name = String::from_str(title);
    name.append(FILE_EXTENSION);
    name
}

/// Pairs the text of a venue's calendar with the name of its file, or
/// reports that there is no text to write.
pub fn calendar_file(title: &str, text: Option<String>) -> (r: Result<VenueOutcome, ScrapeError>)
    ensures
        outcome_result_view(r) == match text {
            Some(contents) => Ok(
                VenueOutcomeView::Calendar { file_name: file_name_of(title@), contents: contents@ },
            ),
            None => Err(ScrapeErrorView::WriteFailed { file_name: file_name_of(title@) }),
        },
{
    let file_name = calendar_file_name(title);
    match text {
        Some(contents) => Ok(VenueOutcome::Calendar { file_name, contents }),
        None => Err(ScrapeError::WriteFailed { file_name }),
    }
}

/// Makes the calendar of a venue from its entries.
///
/// A venue without entries has no calendar: the outcome says so and names
/// the venue. Any other venue gets one event for each entry, in the entries'
/// order, and the outcome holds the calendar's text with the name of the
/// venue's file.
pub fn venue_calendar(
    event_title: &str,
    venue_url: &str,
    title: &str,
    entries: &Vec<ScheduleEntry>,
) -> (r: Result<VenueOutcome, ScrapeError>)
    ensures
        outcome_allowed(
            outcome_result_view(r),
            entries_view(entries@),
            event_title@,
            venue_url@,
            title@,
        ),
{
    if entries.len() == 0 {
        return Ok(VenueOutcome::NoEvents { title: String::from_str(title) });
    }
    let events = assemble_events(entries, event_title, venue_url);
    match build_calendar(&events) {
        Ok(calendar) => calendar_file(title, calendar_text(&calendar)),
        Err(e) => Err(e),
    }
}

/// Every event lasts one event length: its end is the end of its entry.
pub proof fn lemma_events_last_one_hour(
    entries: Seq<ScheduleEntryView>,
    event_title: Seq<char>,
    venue_url: Seq<char>,
)
    ensures
        events_of(entries, event_title, venue_url).len() == entries.len(),
        forall|i: int|
            0 <= i < entries.len() ==> (#[trigger] events_of(entries, event_title, venue_url)[i]).end
                == events_of(entries, event_title, venue_url)[i].start
                + crate::timestamp::EVENT_SECONDS,
{
}

} // verus!
