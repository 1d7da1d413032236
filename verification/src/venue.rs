//! Venue pages: result tables of three rows, and the schedule lines in the
//! third row.

use vstd::prelude::*;
use vstd::string::*;
use crate::error::{ScrapeError, ScrapeErrorView};
use crate::html::{has_local_name, is_named, select, selection, text_contents, text_of};
use crate::pattern::{match_schedule, schedule_match};
use crate::text::{trim, trimmed};
use crate::timestamp::{end_of, end_time, seconds_view, start_of, start_time, EVENT_SECONDS};

verus! {

/// The result tables of a venue page.
pub const TABLE_SELECTOR: &'static str = ".shoplist_resultlist[cellpadding]";

/// The rows of a result table.
pub const ROW_SELECTOR: &'static str = "tr";

/// The shop's name, in the first row.
pub const SHOP_NAME_SELECTOR: &'static str = ".shopname";

/// The shop's address, in the second row.
pub const ADDRESS_SELECTOR: &'static str = ".list-adtext-detitext";

/// The schedule lines and the rules between them, in the third row.
pub const RUN_SELECTOR: &'static str = ".list-adtext-detitext > div > strong,hr";

/// The element that holds a schedule line; any other selected element is a
/// separator.
pub const EMPHASIS_NAME: &'static str = "strong";

/// The number of rows that a result table must have.
pub const TABLE_ROWS: usize = 3;

/// Whether the capture run at hand has already given its entry.
#[derive(Debug, Clone, Copy, PartialEq, Eq, Structural)]
pub enum CaptureState {
    /// The next emphasis node gives an entry.
    Ready,
    /// The run has given its entry: emphasis nodes are passed over until the
    /// next separator.
    Captured,
}

/// The two kinds of node in the third row of a result table.
#[derive(Debug, Clone, Copy, PartialEq, Eq, Structural)]
pub enum NodeKind {
    Emphasis,
    Separator,
}

/// A node of the third row with what is read of it.
#[derive(Debug, PartialEq, Eq)]
pub enum RunNode {
    /// An emphasis node and its text.
    Emphasis(String),
    /// A separator: it ends a capture run.
    Separator,
}

/// A [`RunNode`] with its text as a sequence of characters.
pub enum RunNodeView {
    Emphasis(Seq<char>),
    Separator,
}

impl View for RunNode {
    type V = RunNodeView;

    open spec fn view(&self) -> RunNodeView {
        match *self {
            RunNode::Emphasis(text) => RunNodeView::Emphasis(text@),
            RunNode::Separator => RunNodeView::Separator,
        }
    }
}

/// One event of a venue: when it starts, at which shop, and where that is.
///
/// An entry always has a start, and its end lies one event length after it.
#[derive(Debug, PartialEq, Eq)]
pub struct ScheduleEntry {
    start_time: i64,
    shop_name: String,
    address: String,
}

/// A [`ScheduleEntry`] with its texts as sequences of characters.
pub struct ScheduleEntryView {
    pub start_time: int,
    pub shop_name: Seq<char>,
    pub address: Seq<char>,
}

impl ScheduleEntryView {
    /// The end of the event: one event length after its start.
    pub open spec fn end_time(self) -> int {
        end_of(self.start_time)
    }
}

impl View for ScheduleEntry {
    type V = ScheduleEntryView;

    closed spec fn view(&self) -> ScheduleEntryView {
        ScheduleEntryView {
            start_time: self.start_time as int,
            shop_name: self.shop_name@,
            address: self.address@,
        }
    }
}

impl ScheduleEntry {
    #[verifier::type_invariant]
    spec fn end_is_representable(self) -> bool {
        end_of(self.start_time as int) <= i64::MAX
    }

    /// Makes an entry, unless its end would lie beyond what 64 bits hold.
    pub fn new(start_time: i64, shop_name: String, address: String) -> (r: Option<ScheduleEntry>)
        ensures
            match r {
                Some(entry) => entry@ == (ScheduleEntryView {
                    start_time: start_time as int,
                    shop_name: shop_name@,
                    address: address@,
                }) && end_of(start_time as int) <= i64::MAX,
                None => end_of(start_time as int) > i64::MAX,
            },
    {
        match end_time(start_time) {
            Some(_) => Some(ScheduleEntry { start_time, shop_name, address }),
            None => None,
        }
    }

    /// When the event starts, in seconds since the Unix epoch.
    pub fn start_time(&self) -> (r: i64)
        ensures
            r == self@.start_time,
    {
        self.start_time
    }

    /// When the event ends: exactly one event length after its start.
    pub fn end_time(&self) -> (r: i64)
        ensures
            r == self@.end_time(),
            r == self@.start_time + EVENT_SECONDS,
    {
        proof {
            use_type_invariant(self);
        }
        self.start_time + EVENT_SECONDS
    }

    /// The name of the shop.
    pub fn shop_name(&self) -> (r: &str)
        ensures
            r@ == self@.shop_name,
    {
        self.shop_name.as_str()
    }

    /// The address of the shop.
    pub fn address(&self) -> (r: &str)
        ensures
            r@ == self@.address,
    {
        self.address.as_str()
    }
}

/// The kind of a node.
pub open spec fn kind_of(node: RunNodeView) -> NodeKind {
    match node {
        RunNodeView::Emphasis(_) => NodeKind::Emphasis,
        RunNodeView::Separator => NodeKind::Separator,
    }
}

/// The state after a node of kind `kind`: an emphasis node uses the run up,
/// a separator opens the next one.
pub open spec fn next_state(state: CaptureState, kind: NodeKind) -> CaptureState {
    match kind {
        NodeKind::Emphasis => CaptureState::Captured,
        NodeKind::Separator => CaptureState::Ready,
    }
}

/// Whether a node of kind `kind` gives an entry in state `state`: only the
/// first emphasis node of a run does.
pub open spec fn yields_entry(state: CaptureState, kind: NodeKind) -> bool {
    state is Ready && kind is Emphasis
}

/// The nodes of a row as views.
pub open spec fn runs_view(runs: Seq<RunNode>) -> Seq<RunNodeView> {
    Seq::new(runs.len(), |i: int| runs[i]@)
}

/// Entries as views.
pub open spec fn entries_view(entries: Seq<ScheduleEntry>) -> Seq<ScheduleEntryView> {
    Seq::new(entries.len(), |i: int| entries[i]@)
}

/// A result that holds one entry, as a view.
pub open spec fn entry_result_view(r: Result<ScheduleEntry, ScrapeError>) -> Result<
    ScheduleEntryView,
    ScrapeErrorView,
> {
    match r {
        Ok(entry) => Ok(entry@),
        Err(e) => Err(e@),
    }
}

/// A result that holds entries, as a view.
pub open spec fn entries_result_view(r: Result<Vec<ScheduleEntry>, ScrapeError>) -> Result<
    Seq<ScheduleEntryView>,
    ScrapeErrorView,
> {
    match r {
        Ok(entries) => Ok(entries_view(entries@)),
        Err(e) => Err(e@),
    }
}

/// How a failure of the matcher is reported for a venue page: a line without
/// the pattern is unrecognizable, and a number that cannot be read names no
/// moment.
pub open spec fn schedule_failure(e: ScrapeErrorView) -> ScrapeErrorView {
    match e {
        ScrapeErrorView::PatternNotFound { text, venue_url, shop_name } => {
            ScrapeErrorView::UnrecognizableSchedule { venue_url, shop_name, text }
        },
        ScrapeErrorView::UnreadableNumber { text, venue_url, shop_name } => {
            ScrapeErrorView::InvalidTimestamp { venue_url, shop_name, text }
        },
        other => other,
    }
}

/// The entry of a line whose start is `start`, if that is a moment and the
/// end after it can be held.
pub open spec fn timed_entry(
    start: Option<int>,
    text: Seq<char>,
    shop_name: Seq<char>,
    address: Seq<char>,
    venue_url: Seq<char>,
) -> Result<ScheduleEntryView, ScrapeErrorView> {
    if start is Some && end_of(start->0) <= i64::MAX {
        Ok(ScheduleEntryView { start_time: start->0, shop_name, address })
    } else {
        Err(ScrapeErrorView::InvalidTimestamp { venue_url, shop_name, text })
    }
}

/// The entry that the schedule line `text` gives for the shop `shop_name` at
/// `address`, on the page `venue_url`.
pub open spec fn entry_of(
    text: Seq<char>,
    shop_name: Seq<char>,
    address: Seq<char>,
    venue_url: Seq<char>,
) -> Result<ScheduleEntryView, ScrapeErrorView> {
    match schedule_match(text, venue_url, shop_name) {
        Ok(fields) => timed_entry(start_of(fields), text, shop_name, address, venue_url),
        Err(e) => Err(schedule_failure(e)),
    }
}

/// `front`, followed by the entries of `rest` if there are any; the error of
/// `rest` otherwise.
pub open spec fn prepend(
    front: Seq<ScheduleEntryView>,
    rest: Result<Seq<ScheduleEntryView>, ScrapeErrorView>,
) -> Result<Seq<ScheduleEntryView>, ScrapeErrorView> {
    match rest {
        Ok(entries) => Ok(front + entries),
        Err(e) => Err(e),
    }
}

/// The entries of the nodes `runs`, walked in order from the state `state`.
///
/// In each capture run only the first emphasis node is read, and it must
/// give an entry: the first line that gives none fails the whole walk.
pub open spec fn captured_entries(
    runs: Seq<RunNodeView>,
    state: CaptureState,
    shop_name: Seq<char>,
    address: Seq<char>,
    venue_url: Seq<char>,
) -> Result<Seq<ScheduleEntryView>, ScrapeErrorView>
    decreases runs.len(),
{
    if runs.len() == 0 {
        Ok(Seq::empty())
    } else {
        let rest = captured_entries(
            runs.drop_first(),
            next_state(state, kind_of(runs[0])),
            shop_name,
            address,
            venue_url,
        );
        match runs[0] {
            RunNodeView::Emphasis(text) => if state is Ready {
                match entry_of(text, shop_name, address, venue_url) {
                    Ok(entry) => prepend(seq![entry], rest),
                    Err(e) => Err(e),
                }
            } else {
                rest
            },
            RunNodeView::Separator => rest,
        }
    }
}

/// What is read of a selected node of the third row.
pub open spec fn node_run(node: kuchiki::NodeRef) -> RunNodeView {
    if has_local_name(node, EMPHASIS_NAME@) {
        RunNodeView::Emphasis(text_of(node))
    } else {
        RunNodeView::Separator
    }
}

/// What is read of the selected nodes of the third row.
pub open spec fn node_runs(nodes: Seq<kuchiki::NodeRef>) -> Seq<RunNodeView> {
    Seq::new(nodes.len(), |i: int| node_run(nodes[i]))
}

/// The trimmed text of the first of `nodes`, if there is one.
pub open spec fn first_text(nodes: Seq<kuchiki::NodeRef>) -> Option<Seq<char>> {
    if nodes.len() > 0 {
        Some(trimmed(text_of(nodes[0])))
    } else {
        None
    }
}

/// The trimmed text of the first element below `row` that matches
/// `selector`; `missing` where there is none.
pub open spec fn labelled_text(row: kuchiki::NodeRef, selector: Seq<char>, missing: ScrapeErrorView)
    -> Result<Seq<char>, ScrapeErrorView> {
    match selection(row, selector) {
        Ok(nodes) => match first_text(nodes) {
            Some(text) => Ok(text),
            None => Err(missing),
        },
        Err(e) => Err(e),
    }
}

/// Whether a table of `rows` rows has the expected shape.
pub open spec fn table_shape(rows: nat, venue_url: Seq<char>) -> Result<(), ScrapeErrorView> {
    if rows == TABLE_ROWS {
        Ok(())
    } else {
        Err(ScrapeErrorView::UnexpectedTableShape { venue_url, rows })
    }
}

/// The entries of the three rows of a table.
pub open spec fn row_entries(rows: Seq<kuchiki::NodeRef>, venue_url: Seq<char>) -> Result<
    Seq<ScheduleEntryView>,
    ScrapeErrorView,
> {
    match labelled_text(
        rows[0],
        SHOP_NAME_SELECTOR@,
        ScrapeErrorView::MissingShopName { venue_url },
    ) {
        Ok(shop_name) => match labelled_text(
            rows[1],
            ADDRESS_SELECTOR@,
            ScrapeErrorView::MissingAddress { venue_url },
        ) {
            Ok(address) => match selection(rows[2], RUN_SELECTOR@) {
                Ok(nodes) => captured_entries(
                    node_runs(nodes),
                    CaptureState::Ready,
                    shop_name,
                    address,
                    venue_url,
                ),
                Err(e) => Err(e),
            },
            Err(e) => Err(e),
        },
        Err(e) => Err(e),
    }
}

/// The entries of one result table of the page `venue_url`.
pub open spec fn table_entries_of(table: kuchiki::NodeRef, venue_url: Seq<char>) -> Result<
    Seq<ScheduleEntryView>,
    ScrapeErrorView,
> {
    match selection(table, ROW_SELECTOR@) {
        Ok(rows) => match table_shape(rows.len(), venue_url) {
            Ok(_) => row_entries(rows, venue_url),
            Err(e) => Err(e),
        },
        Err(e) => Err(e),
    }
}

/// The entries of the tables `tables`, table after table; the first table
/// that fails, fails them all.
pub open spec fn tables_entries_of(tables: Seq<kuchiki::NodeRef>, venue_url: Seq<char>) -> Result<
    Seq<ScheduleEntryView>,
    ScrapeErrorView,
>
    decreases tables.len(),
{
    if tables.len() == 0 {
        Ok(Seq::empty())
    } else {
        match table_entries_of(tables[0], venue_url) {
            Ok(entries) => prepend(entries, tables_entries_of(tables.drop_first(), venue_url)),
            Err(e) => Err(e),
        }
    }
}

/// The entries of the venue page `document`, whose address is `venue_url`.
pub open spec fn venue_entries_of(document: kuchiki::NodeRef, venue_url: Seq<char>) -> Result<
    Seq<ScheduleEntryView>,
    ScrapeErrorView,
> {
    match selection(document, TABLE_SELECTOR@) {
        Ok(tables) => tables_entries_of(tables, venue_url),
        Err(e) => Err(e),
    }
}

impl RunNode {
    /// The kind of this node.
    pub fn kind(&self) -> (r: NodeKind)
        ensures
            r == kind_of(self@),
    {
        match self {
            RunNode::Emphasis(_) => NodeKind::Emphasis,
            RunNode::Separator => NodeKind::Separator,
        }
    }
}

/// One step of the walk over the third row: the state after a node of kind
/// `kind`, and whether that node gives an entry.
pub fn step(state: CaptureState, kind: NodeKind) -> (r: (CaptureState, bool))
    ensures
        r.0 == next_state(state, kind),
        r.1 == yields_entry(state, kind),
{
    match kind {
        NodeKind::Emphasis => match state {
            CaptureState::Ready => (CaptureState::Captured, true),
            CaptureState::Captured => (CaptureState::Captured, false),
        },
        NodeKind::Separator => (CaptureState::Ready, false),
    }
}

fn venue_failure(e: ScrapeError) -> (r: ScrapeError)
    ensures
        r@ == schedule_failure(e@),
{
    match e {
        ScrapeError::PatternNotFound { text, venue_url, shop_name } => {
            ScrapeError::UnrecognizableSchedule { venue_url, shop_name, text }
        },
        ScrapeError::UnreadableNumber { text, venue_url, shop_name } => {
            ScrapeError::InvalidTimestamp { venue_url, shop_name, text }
        },
        other => other,
    }
}

/// Makes the entry of a schedule line from the start that was found for it.
pub fn entry_at(start: Option<i64>, text: &str, shop_name: &str, address: &str, venue_url: &str)
    -> (r: Result<ScheduleEntry, ScrapeError>)
    ensures
        entry_result_view(r) == timed_entry(
            seconds_view(start),
            text@,
            shop_name@,
            address@,
            venue_url@,
        ),
{
    let entry = match start {
        Some(t) => ScheduleEntry::new(t, String::from_str(shop_name), String::from_str(address)),
        None => None,
    };
    match entry {
        Some(entry) => Ok(entry),
        None => Err(
            ScrapeError::InvalidTimestamp {
                venue_url: String::from_str(venue_url),
                shop_name: String::from_str(shop_name),
                text: String::from_str(text),
            },
        ),
    }
}

/// Reads one schedule line: finds the pattern, takes its numbers as a moment
/// on the listing's clock, and makes the entry that starts then.
pub fn build_entry(text: &str, shop_name: &str, address: &str, venue_url: &str) -> (r: Result<
    ScheduleEntry,
    ScrapeError,
>)
    ensures
        entry_result_view(r) == entry_of(text@, shop_name@, address@, venue_url@),
{
    match match_schedule(text, venue_url, shop_name) {
        Ok(fields) => entry_at(start_time(&fields), text, shop_name, address, venue_url),
        Err(e) => Err(venue_failure(e)),
    }
}

/// Walks the nodes of a third row and makes the entries of its capture runs.
pub fn capture_runs(runs: &Vec<RunNode>, shop_name: &str, address: &str, venue_url: &str) -> (r:
    Result<Vec<ScheduleEntry>, ScrapeError>)
    ensures
        entries_result_view(r) == captured_entries(
            runs_view(runs@),
            CaptureState::Ready,
            shop_name@,
            address@,
            venue_url@,
        ),
{
    let ghost all = runs_view(runs@);
    let mut entries: Vec<ScheduleEntry> = Vec::new();
    let mut state = CaptureState::Ready;
    let mut i: usize = 0;
    assert(all.skip(0) == all);
    assert(entries_view(entries@) + Seq::<ScheduleEntryView>::empty() == entries_view(entries@));
    while i < runs.len()
        invariant
            i <= runs.len(),
            all == runs_view(runs@),
            captured_entries(all, CaptureState::Ready, shop_name@, address@, venue_url@)
                == prepend(
                entries_view(entries@),
                captured_entries(all.skip(i as int), state, shop_name@, address@, venue_url@),
            ),
        decreases runs.len() - i,
    {
        let ghost before = entries_view(entries@);
        let ghost rest = captured_entries(
            all.skip(i + 1),
            next_state(state, kind_of(all[i as int])),
            shop_name@,
            address@,
            venue_url@,
        );
        proof {
            assert(all.skip(i as int)[0] == all[i as int]);
            assert(all.skip(i as int).drop_first() == all.skip(i + 1));
        }
        let (next, emits) = step(state, runs[i].kind());
        if emits {
            match &runs[i] {
                RunNode::Emphasis(text) => {
                    match build_entry(text.as_str(), shop_name, address, venue_url) {
                        Ok(entry) => {
                            proof {
                                let added = entries@.push(entry);
                                assert(entries_view(added) == before.push(entry@));
                                if rest is Ok {
                                    assert(before + (seq![entry@] + rest->Ok_0) == before.push(
                                        entry@,
                                    ) + rest->Ok_0);
                                }
                            }
                            entries.push(entry);
                        },
                        Err(e) => {
                            return Err(e);
                        },
                    }
                },
                RunNode::Separator => {},
            }
        }
        state = next;
        i += 1;
    }
    Ok(entries)
}

/// Reads the selected nodes of a third row: of an emphasis node its text, of
/// any other node only that it separates.
pub fn read_runs(nodes: &Vec<kuchiki::NodeRef>) -> (r: Vec<RunNode>)
    ensures
        runs_view(r@) == node_runs(nodes@),
{
    let mut runs: Vec<RunNode> = Vec::new();
    let mut i: usize = 0;
    while i < nodes.len()
        invariant
            i <= nodes.len(),
            runs.len() == i,
            forall|j: int| 0 <= j < i ==> (#[trigger] runs[j])@ == node_run(nodes[j]),
        decreases nodes.len() - i,
    {
        let node = &nodes[i];
        if is_named(node, EMPHASIS_NAME) {
            runs.push(RunNode::Emphasis(text_contents(node)));
        } else {
            runs.push(RunNode::Separator);
        }
        i += 1;
    }
    assert(runs_view(runs@) == node_runs(nodes@));
    runs
}

/// Tells whether a result table has the expected number of rows.
pub fn check_table_shape(rows: usize, venue_url: &str) -> (r: Result<(), ScrapeError>)
    ensures
        match r {
            Ok(_) => table_shape(rows as nat, venue_url@) is Ok,
            Err(e) => table_shape(rows as nat, venue_url@) == Err::<(), ScrapeErrorView>(e@),
        },
{
    if rows == TABLE_ROWS {
        Ok(())
    } else {
        Err(ScrapeError::UnexpectedTableShape { venue_url: String::from_str(venue_url), rows })
    }
}

fn read_label(row: &kuchiki::NodeRef, selector: &str, missing: ScrapeError) -> (r: Result<
    String,
    ScrapeError,
>)
    ensures
        match r {
            Ok(text) => labelled_text(*row, selector@, missing@) == Ok::<
                Seq<char>,
                ScrapeErrorView,
            >(text@),
            Err(e) => labelled_text(*row, selector@, missing@) == Err::<
                Seq<char>,
                ScrapeErrorView,
            >(e@),
        },
{
    match select(row, selector) {
        Ok(nodes) => {
            if nodes.len() > 0 {
                let text = text_contents(&nodes[0]);
                Ok(trim(text.as_str()))
            } else {
                Err(missing)
            }
        },
        Err(e) => Err(e),
    }
}

/// Reads one result table: checks that it has three rows, takes the shop's
/// name from the first and its address from the second, and makes the
/// entries of the third.
pub fn table_entries(table: &kuchiki::NodeRef, venue_url: &str) -> (r: Result<
    Vec<ScheduleEntry>,
    ScrapeError,
>)
    ensures
        entries_result_view(r) == table_entries_of(*table, venue_url@),
{
    let rows = match select(table, ROW_SELECTOR) {
        Ok(rows) => rows,
        Err(e) => {
            return Err(e);
        },
    };
    match check_table_shape(rows.len(), venue_url) {
        Ok(_) => {},
        Err(e) => {
            return Err(e);
        },
    }
    let shop_name = match read_label(
        &rows[0],
        SHOP_NAME_SELECTOR,
        ScrapeError::MissingShopName { venue_url: String::from_str(venue_url) },
    ) {
        Ok(text) => text,
        Err(e) => {
            return Err(e);
        },
    };
    let address = match read_label(
        &rows[1],
        ADDRESS_SELECTOR,
        ScrapeError::MissingAddress { venue_url: String::from_str(venue_url) },
    ) {
        Ok(text) => text,
        Err(e) => {
            return Err(e);
        },
    };
    match select(&rows[2], RUN_SELECTOR) {
        Ok(nodes) => {
            let runs = read_runs(&nodes);
            capture_runs(&runs, shop_name.as_str(), address.as_str(), venue_url)
        },
        Err(e) => Err(e),
    }
}

/// Reads a venue page: every result table of the page, in document order.
pub fn extract_venue(document: &kuchiki::NodeRef, venue_url: &str) -> (r: Result<
    Vec<ScheduleEntry>,
    ScrapeError,
>)
    ensures
        entries_result_view(r) == venue_entries_of(*document, venue_url@),
{
    let tables = match select(document, TABLE_SELECTOR) {
        Ok(tables) => tables,
        Err(e) => {
            return Err(e);
        },
    };
    let mut entries: Vec<ScheduleEntry> = Vec::new();
    let mut i: usize = 0;
    assert(tables@.skip(0) == tables@);
    assert(entries_view(entries@) + Seq::<ScheduleEntryView>::empty() == entries_view(entries@));
    while i < tables.len()
        invariant
            i <= tables.len(),
            venue_entries_of(*document, venue_url@) == tables_entries_of(tables@, venue_url@),
            tables_entries_of(tables@, venue_url@) == prepend(
                entries_view(entries@),
                tables_entries_of(tables@.skip(i as int), venue_url@),
            ),
        decreases tables.len() - i,
    {
        let ghost before = entries_view(entries@);
        let ghost rest = tables_entries_of(tables@.skip(i + 1), venue_url@);
        proof {
            assert(tables@.skip(i as int)[0] == tables@[i as int]);
            assert(tables@.skip(i as int).drop_first() == tables@.skip(i + 1));
        }
        match table_entries(&tables[i], venue_url) {
            Ok(mut found) => {
                proof {
                    let joined = entries@ + found@;
                    assert(entries_view(joined) == before + entries_view(found@));
                    if rest is Ok {
                        assert(before + (entries_view(found@) + rest->Ok_0) == (before
                            + entries_view(found@)) + rest->Ok_0);
                    }
                }
                entries.append(&mut found);
            },
            Err(e) => {
                return Err(e);
            },
        }
        i += 1;
    }
    Ok(entries)
}

/// The number of separators among `runs`.
pub open spec fn separators(runs: Seq<RunNodeView>) -> nat
    decreases runs.len(),
{
    if runs.len() == 0 {
        0
    } else {
        separators(runs.drop_first()) + if runs[0] is Separator {
            1nat
        } else {
            0nat
        }
    }
}

/// In the row emphasis, emphasis, separator, emphasis the first and the last
/// node give the entries. The second node is passed over as a repeated label,
/// whatever its text: it is not even required to follow the pattern.
pub proof fn lemma_repeated_label_is_passed_over(
    a: Seq<char>,
    b: Seq<char>,
    c: Seq<char>,
    shop_name: Seq<char>,
    address: Seq<char>,
    venue_url: Seq<char>,
)
    ensures
        captured_entries(
            seq![
                RunNodeView::Emphasis(a),
                RunNodeView::Emphasis(b),
                RunNodeView::Separator,
                RunNodeView::Emphasis(c),
            ],
            CaptureState::Ready,
            shop_name,
            address,
            venue_url,
        ) == match entry_of(a, shop_name, address, venue_url) {
            Ok(first) => match entry_of(c, shop_name, address, venue_url) {
                Ok(second) => Ok(seq![first, second]),
                Err(e) => Err(e),
            },
            Err(e) => Err::<Seq<ScheduleEntryView>, ScrapeErrorView>(e),
        },
{
    let runs = seq![
        RunNodeView::Emphasis(a),
        RunNodeView::Emphasis(b),
        RunNodeView::Separator,
        RunNodeView::Emphasis(c),
    ];
    let after_a = runs.drop_first();
    let after_b = after_a.drop_first();
    let after_rule = after_b.drop_first();
    let after_c = after_rule.drop_first();
    assert(after_a == seq![
        RunNodeView::Emphasis(b),
        RunNodeView::Separator,
        RunNodeView::Emphasis(c),
    ]);
    assert(after_b == seq![RunNodeView::Separator, RunNodeView::Emphasis(c)]);
    assert(after_rule == seq![RunNodeView::Emphasis(c)]);
    assert(after_c == Seq::<RunNodeView>::empty());
    let last = captured_entries(after_rule, CaptureState::Ready, shop_name, address, venue_url);
    assert(captured_entries(after_c, CaptureState::Captured, shop_name, address, venue_url) == Ok::<
        Seq<ScheduleEntryView>,
        ScrapeErrorView,
    >(Seq::empty()));
    match entry_of(c, shop_name, address, venue_url) {
        Ok(second) => {
            assert(seq![second] + Seq::<ScheduleEntryView>::empty() == seq![second]);
            assert(last == Ok::<Seq<ScheduleEntryView>, ScrapeErrorView>(seq![second]));
        },
        Err(e) => {
            assert(last == Err::<Seq<ScheduleEntryView>, ScrapeErrorView>(e));
        },
    }
    assert(captured_entries(after_b, CaptureState::Captured, shop_name, address, venue_url)
        == last);
    assert(captured_entries(after_a, CaptureState::Captured, shop_name, address, venue_url)
        == last);
    match entry_of(a, shop_name, address, venue_url) {
        Ok(first) => {
            if last is Ok {
                assert(seq![first] + last->Ok_0 == seq![first, last->Ok_0[0]]);
            }
        },
        Err(e) => {},
    }
}

/// An emphasis node that follows another emphasis node directly changes
/// nothing: only the first emphasis node of a capture run counts.
pub proof fn lemma_emphasis_after_emphasis_changes_nothing(
    front: Seq<RunNodeView>,
    a: Seq<char>,
    b: Seq<char>,
    back: Seq<RunNodeView>,
    state: CaptureState,
    shop_name: Seq<char>,
    address: Seq<char>,
    venue_url: Seq<char>,
)
    ensures
        captured_entries(
            front + seq![RunNodeView::Emphasis(a), RunNodeView::Emphasis(b)] + back,
            state,
            shop_name,
            address,
            venue_url,
        ) == captured_entries(
            front + seq![RunNodeView::Emphasis(a)] + back,
            state,
            shop_name,
            address,
            venue_url,
        ),
    decreases front.len(),
{
    let twice = front + seq![RunNodeView::Emphasis(a), RunNodeView::Emphasis(b)] + back;
    let once = front + seq![RunNodeView::Emphasis(a)] + back;
    if front.len() == 0 {
        let label = seq![RunNodeView::Emphasis(b)] + back;
        assert(twice.drop_first() == label);
        assert(once.drop_first() == back);
        assert(label.drop_first() == back);
        assert(captured_entries(label, CaptureState::Captured, shop_name, address, venue_url)
            == captured_entries(back, CaptureState::Captured, shop_name, address, venue_url));
    } else {
        let rest = front.drop_first();
        assert(twice.drop_first() == rest + seq![
            RunNodeView::Emphasis(a),
            RunNodeView::Emphasis(b),
        ] + back);
        assert(once.drop_first() == rest + seq![RunNodeView::Emphasis(a)] + back);
        assert(twice[0] == once[0]);
        lemma_emphasis_after_emphasis_changes_nothing(
            rest,
            a,
            b,
            back,
            next_state(state, kind_of(front[0])),
            shop_name,
            address,
            venue_url,
        );
    }
}

/// A row gives at most one entry for each of its capture runs: no more than
/// its separators, and one more where the walk starts ready.
pub proof fn lemma_one_entry_per_run(
    runs: Seq<RunNodeView>,
    state: CaptureState,
    shop_name: Seq<char>,
    address: Seq<char>,
    venue_url: Seq<char>,
)
    ensures
        captured_entries(runs, state, shop_name, address, venue_url) matches Ok(entries)
            ==> entries.len() <= separators(runs) + if state is Ready {
            1nat
        } else {
            0nat
        },
    decreases runs.len(),
{
    if runs.len() > 0 {
        lemma_one_entry_per_run(
            runs.drop_first(),
            next_state(state, kind_of(runs[0])),
            shop_name,
            address,
            venue_url,
        );
    }
}

/// A table whose rows are not exactly three is refused, and the refusal
/// names the page and the number of rows that were found.
pub proof fn lemma_table_needs_three_rows(table: kuchiki::NodeRef, venue_url: Seq<char>)
    ensures
        selection(table, ROW_SELECTOR@) matches Ok(rows) ==> (rows.len() != 3 ==> table_entries_of(
            table,
            venue_url,
        ) == Err::<Seq<ScheduleEntryView>, ScrapeErrorView>(
            ScrapeErrorView::UnexpectedTableShape { venue_url, rows: rows.len() },
        )),
{
}

/// A page without result tables has no entries, and that is no failure.
pub proof fn lemma_page_without_tables_is_empty(document: kuchiki::NodeRef, venue_url: Seq<char>)
    ensures
        selection(document, TABLE_SELECTOR@) matches Ok(tables) ==> (tables.len() == 0
            ==> venue_entries_of(document, venue_url) == Ok::<
            Seq<ScheduleEntryView>,
            ScrapeErrorView,
        >(Seq::empty())),
{
}

/// Every entry of a row carries the shop and the address of its table.
pub proof fn lemma_entries_carry_their_shop(
    runs: Seq<RunNodeView>,
    state: CaptureState,
    shop_name: Seq<char>,
    address: Seq<char>,
    venue_url: Seq<char>,
)
    ensures
        captured_entries(runs, state, shop_name, address, venue_url) matches Ok(entries)
            ==> forall|i: int|
            0 <= i < entries.len() ==> (#[trigger] entries[i]).shop_name == shop_name
                && entries[i].address == address,
    decreases runs.len(),
{
    if runs.len() > 0 {
        lemma_entries_carry_their_shop(
            runs.drop_first(),
            next_state(state, kind_of(runs[0])),
            shop_name,
            address,
            venue_url,
        );
    }
}

} // verus!
