//! The course of a run: which page to fetch, which file to write, and when
//! to stop.
//!
//! The library neither fetches nor writes. It hands the caller one
//! [`Action`] at a time and is told by an [`Event`] how that went. The first
//! failure ends the run; files that were written before it stay.

use vstd::prelude::*;
use vstd::string::*;
use crate::calendar::{
    file_name_of,
    calendar_file_name,
    outcome_allowed,
    outcome_result_view,
    venue_calendar,
    VenueOutcome,
    VenueOutcomeView,
};
use crate::error::{ScrapeError, ScrapeErrorView};
use crate::html::{parse, parsed};
use crate::index::{
    extract_index,
    index_of,
    index_result_view,
    links_view,
    normalize,
    normalized_url,
    IndexPage,
    IndexPageView,
    VenueLink,
    VenueLinkView,
};
use crate::venue::{
    entries_result_view,
    extract_venue,
    venue_entries_of,
    ScheduleEntry,
    ScheduleEntryView,
};

verus! {

/// What a run is waiting for.
#[derive(Debug, Clone, Copy, PartialEq, Eq, Structural)]
pub enum Phase {
    /// The listing is being fetched.
    AwaitListing,
    /// The page of the venue at hand is being fetched.
    AwaitVenue,
    /// The outcome of the venue at hand is being written or announced.
    AwaitReport,
    /// The run is over.
    Finished,
}

/// What the caller reports back.
#[derive(Debug, PartialEq, Eq)]
pub enum Event {
    /// The page that was asked for, as bytes.
    Fetched { body: Vec<u8> },
    /// The page that was asked for could not be fetched.
    FetchFailed,
    /// The file was written, or the notice was given.
    Completed,
    /// The file could not be written.
    WriteFailed,
}

/// An [`Event`] with its bytes as a sequence.
pub enum EventView {
    Fetched { body: Seq<u8> },
    FetchFailed,
    Completed,
    WriteFailed,
}

impl View for Event {
    type V = EventView;

    open spec fn view(&self) -> EventView {
        match *self {
            Event::Fetched { body } => EventView::Fetched { body: body@ },
            Event::FetchFailed => EventView::FetchFailed,
            Event::Completed => EventView::Completed,
            Event::WriteFailed => EventView::WriteFailed,
        }
    }
}

/// What the caller is to do next.
#[derive(Debug, PartialEq, Eq)]
pub enum Action {
    /// Fetch the page at `url` and report its bytes.
    Fetch { url: String },
    /// Write `contents` to the file `file_name`, replacing what is there.
    Write { file_name: String, contents: String },
    /// Tell the user that the venue `title` has no events.
    Notify { title: String },
    /// Nothing is left to do.
    Finish,
    /// Stop: the run has failed.
    Abort { error: ScrapeError },
}

/// An [`Action`] with its texts as sequences of characters.
pub enum ActionView {
    Fetch { url: Seq<char> },
    Write { file_name: Seq<char>, contents: Seq<char> },
    Notify { title: Seq<char> },
    Finish,
    Abort { error: ScrapeErrorView },
}

impl View for Action {
    type V = ActionView;

    open spec fn view(&self) -> ActionView {
        match *self {
            Action::Fetch { url } => ActionView::Fetch { url: url@ },
            Action::Write { file_name, contents } => ActionView::Write {
                file_name: file_name@,
                contents: contents@,
            },
            Action::Notify { title } => ActionView::Notify { title: title@ },
            Action::Finish => ActionView::Finish,
            Action::Abort { error } => ActionView::Abort { error: error@ },
        }
    }
}

/// A run over a listing and its venues, one after the other.
#[derive(Debug)]
pub struct Run {
    phase: Phase,
    base_url: String,
    event_title: String,
    venues: Vec<VenueLink>,
    position: usize,
}

/// A [`Run`] with its texts as sequences of characters.
pub struct RunView {
    pub phase: Phase,
    /// The address of the listing.
    pub base_url: Seq<char>,
    /// The title of the listing, once it has been read.
    pub event_title: Seq<char>,
    /// The venues of the listing, once it has been read.
    pub venues: Seq<VenueLinkView>,
    /// Which venue is at hand.
    pub position: nat,
}

impl View for Run {
    type V = RunView;

    closed spec fn view(&self) -> RunView {
        RunView {
            phase: self.phase,
            base_url: self.base_url@,
            event_title: self.event_title@,
            venues: links_view(self.venues@),
            position: self.position as nat,
        }
    }
}

/// The run `run` in another phase and at another venue.
pub open spec fn moved(run: RunView, phase: Phase, position: nat) -> RunView {
    RunView {
        phase,
        base_url: run.base_url,
        event_title: run.event_title,
        venues: run.venues,
        position,
    }
}

/// The run ends in failure.
pub open spec fn aborted(run: RunView, error: ScrapeErrorView) -> (RunView, ActionView) {
    (moved(run, Phase::Finished, run.position), ActionView::Abort { error })
}

/// The run turns to the venue at `position`: its page is fetched, or the
/// run is over where no venue is left.
pub open spec fn turned_to(run: RunView, position: nat) -> (RunView, ActionView) {
    if position < run.venues.len() {
        (
            moved(run, Phase::AwaitVenue, position),
            ActionView::Fetch { url: run.venues[position as int].url },
        )
    } else {
        (moved(run, Phase::Finished, position), ActionView::Finish)
    }
}

/// What is read of the listing in `body`, whose address is `base_url`.
pub open spec fn listing_of(body: Seq<u8>, base_url: Seq<char>) -> Result<
    IndexPageView,
    ScrapeErrorView,
> {
    match parsed(body) {
        Ok(document) => index_of(document, base_url),
        Err(e) => Err(e),
    }
}

/// The entries of the venue page in `body`, whose address is `venue_url`.
pub open spec fn page_entries_of(body: Seq<u8>, venue_url: Seq<char>) -> Result<
    Seq<ScheduleEntryView>,
    ScrapeErrorView,
> {
    match parsed(body) {
        Ok(document) => venue_entries_of(document, venue_url),
        Err(e) => Err(e),
    }
}

/// What holds of the outcome for the venue `link` whose page is `body`.
pub open spec fn page_outcome_allowed(
    r: Result<VenueOutcomeView, ScrapeErrorView>,
    body: Seq<u8>,
    event_title: Seq<char>,
    link: VenueLinkView,
) -> bool {
    match page_entries_of(body, link.url) {
        Ok(entries) => outcome_allowed(r, entries, event_title, link.url, link.title),
        Err(e) => r == Err::<VenueOutcomeView, ScrapeErrorView>(e),
    }
}

/// How a run goes on when the listing has been asked for.
pub open spec fn listing_step(run: RunView, event: EventView) -> (RunView, ActionView) {
    match event {
        EventView::Fetched { body } => match listing_of(body, run.base_url) {
            Ok(page) => turned_to(
                RunView {
                    phase: run.phase,
                    base_url: run.base_url,
                    event_title: page.event_title,
                    venues: page.venue_links,
                    position: 0,
                },
                0,
            ),
            Err(e) => aborted(run, e),
        },
        EventView::FetchFailed => aborted(run, ScrapeErrorView::FetchFailed { url: run.base_url }),
        _ => aborted(run, ScrapeErrorView::UnexpectedEvent),
    }
}

/// How a run goes on with the outcome of the venue at hand: a calendar is
/// written, the lack of events is announced, and a failure ends the run.
pub open spec fn outcome_step(run: RunView, outcome: Result<VenueOutcomeView, ScrapeErrorView>)
    -> (RunView, ActionView) {
    match outcome {
        Ok(VenueOutcomeView::Calendar { file_name, contents }) => (
            moved(run, Phase::AwaitReport, run.position),
            ActionView::Write { file_name, contents },
        ),
        Ok(VenueOutcomeView::NoEvents { title }) => (
            moved(run, Phase::AwaitReport, run.position),
            ActionView::Notify { title },
        ),
        Err(e) => aborted(run, e),
    }
}

/// How a run goes on when the outcome of the venue at hand has been
/// written or announced: with the next venue.
pub open spec fn report_step(run: RunView, event: EventView) -> (RunView, ActionView) {
    match event {
        EventView::Completed => turned_to(run, run.position + 1),
        EventView::WriteFailed => aborted(
            run,
            ScrapeErrorView::WriteFailed {
                file_name: file_name_of(run.venues[run.position as int].title),
            },
        ),
        _ => aborted(run, ScrapeErrorView::UnexpectedEvent),
    }
}

/// Whether `after` and `action` may follow when the run `before` is told
/// `event`.
///
/// Everything is fixed by `before` and `event` but the text of a calendar.
/// A run that is over stays over.
pub open spec fn follows(before: RunView, event: EventView, after: RunView, action: ActionView)
    -> bool {
    match before.phase {
        Phase::AwaitListing => (after, action) == listing_step(before, event),
        Phase::AwaitVenue => match event {
            EventView::Fetched { body } => exists|outcome: Result<VenueOutcomeView, ScrapeErrorView>|
                #![auto]
                page_outcome_allowed(
                    outcome,
                    body,
                    before.event_title,
                    before.venues[before.position as int],
                ) && (after, action) == outcome_step(before, outcome),
            EventView::FetchFailed => (after, action) == aborted(
                before,
                ScrapeErrorView::FetchFailed { url: before.venues[before.position as int].url },
            ),
            _ => (after, action) == aborted(before, ScrapeErrorView::UnexpectedEvent),
        },
        Phase::AwaitReport => (after, action) == report_step(before, event),
        Phase::Finished => after == before && action == ActionView::Finish,
    }
}

/// The run that starts at the listing `url`, with its first action.
pub open spec fn started(url: Seq<char>) -> (RunView, ActionView) {
    match normalized_url(url) {
        Some(base_url) => (
            RunView {
                phase: Phase::AwaitListing,
                base_url,
                event_title: Seq::empty(),
                venues: Seq::empty(),
                position: 0,
            },
            ActionView::Fetch { url: base_url },
        ),
        None => (
            RunView {
                phase: Phase::Finished,
                base_url: url,
                event_title: Seq::empty(),
                venues: Seq::empty(),
                position: 0,
            },
            ActionView::Abort { error: ScrapeErrorView::MalformedUrl { url } },
        ),
    }
}

/// Reads the listing out of the bytes of its page.
pub fn read_listing(body: &[u8], base_url: &str) -> (r: Result<IndexPage, ScrapeError>)
    ensures
        index_result_view(r) == listing_of(body@, base_url@),
{
    match parse(body) {
        Ok(document) => extract_index(&document, base_url),
        Err(e) => Err(e),
    }
}

/// Reads the entries of a venue out of the bytes of its page.
pub fn read_venue(body: &[u8], venue_url: &str) -> (r: Result<Vec<ScheduleEntry>, ScrapeError>)
    ensures
        entries_result_view(r) == page_entries_of(body@, venue_url@),
{
    match parse(body) {
        Ok(document) => extract_venue(&document, venue_url),
        Err(e) => Err(e),
    }
}

/// Makes the calendar of a venue out of the bytes of its page.
///
/// The events carry the listing's title `event_title`; the file is named
/// after the venue's title.
pub fn process_venue(body: &[u8], event_title: &str, link: &VenueLink) -> (r: Result<
    VenueOutcome,
    ScrapeError,
>)
    ensures
        page_outcome_allowed(outcome_result_view(r), body@, event_title@, link@),
{
    match read_venue(body, link.url.as_str()) {
        Ok(entries) => venue_calendar(event_title, link.url.as_str(), link.title.as_str(), &entries),
        Err(e) => Err(e),
    }
}

impl Run {
    #[verifier::type_invariant]
    spec fn venue_at_hand(self) -> bool {
        self.phase is AwaitVenue || self.phase is AwaitReport ==> self.position
            < self.venues.len()
    }

    /// What the run is waiting for.
    pub fn phase(&self) -> (r: Phase)
        ensures
            r == self@.phase,
    {
        self.phase
    }

    /// Whether the run is over.
    pub fn is_finished(&self) -> (r: bool)
        ensures
            r == (self@.phase is Finished),
    {
        match self.phase {
            Phase::Finished => true,
            _ => false,
        }
    }

    fn abort(self, error: ScrapeError) -> (r: (Run, Action))
        ensures
            (r.0@, r.1@) == aborted(self@, error@),
    {
        (
            Run {
                phase: Phase::Finished,
                base_url: self.base_url,
                event_title: self.event_title,
                venues: self.venues,
                position: self.position,
            },
            Action::Abort { error },
        )
    }

    fn turn_to(self, position: usize) -> (r: (Run, Action))
        ensures
            (r.0@, r.1@) == turned_to(self@, position as nat),
    {
        if position < self.venues.len() {
            let url = self.venues[position].url.clone();
            (
                Run {
                    phase: Phase::AwaitVenue,
                    base_url: self.base_url,
                    event_title: self.event_title,
                    venues: self.venues,
                    position,
                },
                Action::Fetch { url },
            )
        } else {
            (
                Run {
                    phase: Phase::Finished,
                    base_url: self.base_url,
                    event_title: self.event_title,
                    venues: self.venues,
                    position,
                },
                Action::Finish,
            )
        }
    }

    fn report(self, outcome: Result<VenueOutcome, ScrapeError>) -> (r: (Run, Action))
        requires
            self@.phase is AwaitVenue,
        ensures
            (r.0@, r.1@) == outcome_step(self@, outcome_result_view(outcome)),
    {
        proof {
            use_type_invariant(&self);
        }
        match outcome {
            Ok(VenueOutcome::Calendar { file_name, contents }) => (
                Run {
                    phase: Phase::AwaitReport,
                    base_url: self.base_url,
                    event_title: self.event_title,
                    venues: self.venues,
                    position: self.position,
                },
                Action::Write { file_name, contents },
            ),
            Ok(VenueOutcome::NoEvents { title }) => (
                Run {
                    phase: Phase::AwaitReport,
                    base_url: self.base_url,
                    event_title: self.event_title,
                    venues: self.venues,
                    position: self.position,
                },
                Action::Notify { title },
            ),
            Err(e) => self.abort(e),
        }
    }
}

/// Starts a run at the listing `url`.
///
/// An address that is no URL ends the run before anything is fetched.
pub fn begin(url: &str) -> (r: (Run, Action))
    ensures
        (r.0@, r.1@) == started(url@),
{
    assert(links_view(Seq::<VenueLink>::empty()) == Seq::<VenueLinkView>::empty());
    match normalize(url) {
        Ok(base_url) => {
            let first = base_url.clone();
            (
                Run {
                    phase: Phase::AwaitListing,
                    base_url,
                    event_title: String::new(),
                    venues: Vec::new(),
                    position: 0,
                },
                Action::Fetch { url: first },
            )
        },
        Err(error) => (
            Run {
                phase: Phase::Finished,
                base_url: String::from_str(url),
                event_title: String::new(),
                venues: Vec::new(),
                position: 0,
            },
            Action::Abort { error },
        ),
    }
}

/// Takes the run one step further: hears how the last action went and says
/// what is to be done next.
pub fn advance(run: Run, event: Event) -> (r: (Run, Action))
    ensures
        follows(run@, event@, r.0@, r.1@),
{
    proof {
        use_type_invariant(&run);
    }
    match run.phase {
        Phase::AwaitListing => match event {
            Event::Fetched { body } => {
                match read_listing(body.as_slice(), run.base_url.as_str()) {
                    Ok(page) => {
                        let read = Run {
                            phase: Phase::AwaitListing,
                            base_url: run.base_url,
                            event_title: page.event_title,
                            venues: page.venue_links,
                            position: 0,
                        };
                        read.turn_to(0)
                    },
                    Err(e) => run.abort(e),
                }
            },
            Event::FetchFailed => {
                let url = run.base_url.clone();
                run.abort(ScrapeError::FetchFailed { url })
            },
            _ => run.abort(ScrapeError::UnexpectedEvent),
        },
        Phase::AwaitVenue => match event {
            Event::Fetched { body } => {
                let outcome = process_venue(
                    body.as_slice(),
                    run.event_title.as_str(),
                    &run.venues[run.position],
                );
                run.report(outcome)
            },
            Event::FetchFailed => {
                let url = run.venues[run.position].url.clone();
                run.abort(ScrapeError::FetchFailed { url })
            },
            _ => run.abort(ScrapeError::UnexpectedEvent),
        },
        Phase::AwaitReport => match event {
            Event::Completed => {
                let next = run.position + 1;
                run.turn_to(next)
            },
            Event::WriteFailed => {
                let file_name = calendar_file_name(run.venues[run.position].title.as_str());
                run.abort(ScrapeError::WriteFailed { file_name })
            },
            _ => run.abort(ScrapeError::UnexpectedEvent),
        },
        Phase::Finished => (run, Action::Finish),
    }
}

/// A listing that cannot be read ends the run at once: no venue page is
/// asked for.
pub proof fn lemma_failed_listing_fetches_nothing(run: RunView, body: Seq<u8>)
    ensures
        listing_of(body, run.base_url) matches Err(e) ==> listing_step(
            run,
            EventView::Fetched { body },
        ) == aborted(run, e),
        aborted(run, ScrapeErrorView::MissingTitle).0.phase is Finished,
{
}

/// A venue without events is announced by its title, nothing is written
/// for it, and the run goes on with the next venue.
pub proof fn lemma_empty_venue_is_announced(run: RunView, title: Seq<char>)
    ensures
        outcome_step(
            run,
            Ok(VenueOutcomeView::NoEvents { title }),
        ).1 == (ActionView::Notify { title }),
        report_step(
            outcome_step(run, Ok(VenueOutcomeView::NoEvents { title })).0,
            EventView::Completed,
        ) == turned_to(moved(run, Phase::AwaitReport, run.position), run.position + 1),
{
}

/// A venue that fails ends the run, and a run that is over asks for
/// nothing more: what was written before the failure is left as it is.
pub proof fn lemma_failure_ends_the_run(
    run: RunView,
    error: ScrapeErrorView,
    event: EventView,
    after: RunView,
    action: ActionView,
)
    ensures
        outcome_step(run, Err(error)) == aborted(run, error),
        aborted(run, error).0.phase is Finished,
        follows(aborted(run, error).0, event, after, action) ==> action == ActionView::Finish
            && after == aborted(run, error).0,
{
}

/// The venues are visited in the order of the listing, each once: after
/// the venue at `position` comes the one at `position + 1`.
pub proof fn lemma_venues_in_order(run: RunView)
    ensures
        run.position + 1 < run.venues.len() ==> report_step(run, EventView::Completed).1 == (
        ActionView::Fetch { url: run.venues[(run.position + 1) as int].url }),
        run.position + 1 >= run.venues.len() ==> report_step(run, EventView::Completed).1
            == ActionView::Finish,
{
}

} // verus!
