//! The schedule pattern: a date, anything, then a time of day.

use vstd::prelude::*;
use vstd::string::*;
use crate::error::{ScrapeError, ScrapeErrorView};
use crate::text::{decimal_u32, parse_decimal};

verus! {

/// A compiled pattern of the regex crate.
#[verifier::external_type_specification]
#[verifier::external_body]
pub struct ExRegex(regex::Regex);

/// Why the regex crate refused a pattern.
#[verifier::external_type_specification]
#[verifier::external_body]
pub struct ExRegexError(regex::Error);

/// Whether `regex::Regex::new` accepts `pattern`.
pub uninterp spec fn regex_valid(pattern: Seq<char>) -> bool;

/// The pattern that `re` was compiled from, as `regex::Regex::as_str` gives it.
pub uninterp spec fn regex_source(re: regex::Regex) -> Seq<char>;

/// What `regex::Regex::captures` finds for `pattern` in `text`: nothing, or
/// the text of every group of the leftmost match, the whole match first; a
/// group that took no part in the match is `None`.
pub uninterp spec fn regex_captures(pattern: Seq<char>, text: Seq<char>) -> Option<
    Seq<Option<Seq<char>>>,
>;

/// A date written with 年, 月 and 日, then at least one character of any kind
/// (line breaks too), then a slash and a time of day that ends in ～.
pub const SCHEDULE_PATTERN: &'static str = r"(?s)(\d+)年(\d+)月(\d+)日.+/(\d+):(\d+)～";

/// The five numbers of a schedule line, as they were written.
#[derive(Debug, Clone, Copy, PartialEq, Eq, Structural)]
pub struct ScheduleFields {
    pub year: u32,
    pub month: u32,
    pub day: u32,
    pub hour: u32,
    pub minute: u32,
}

/// The groups of a match with their texts as sequences of characters.
pub open spec fn groups_view(groups: Seq<Option<String>>) -> Seq<Option<Seq<char>>> {
    Seq::new(
        groups.len(),
        |i: int|
            match groups[i] {
                Some(s) => Some(s@),
                None => None,
            },
    )
}

/// The outcome of a search with its texts as sequences of characters.
pub open spec fn captures_view(found: Option<Vec<Option<String>>>) -> Option<
    Seq<Option<Seq<char>>>,
> {
    match found {
        Some(groups) => Some(groups_view(groups@)),
        None => None,
    }
}

/// The number in group `i`, if the group is there and holds one.
pub open spec fn group_number(groups: Seq<Option<Seq<char>>>, i: int) -> Option<u32> {
    if 0 <= i < groups.len() {
        match groups[i] {
            Some(s) => decimal_u32(s),
            None => None,
        }
    } else {
        None
    }
}

/// The schedule fields in groups one to five, if each holds a number.
pub open spec fn fields_of(groups: Seq<Option<Seq<char>>>) -> Option<ScheduleFields> {
    match (
        group_number(groups, 1),
        group_number(groups, 2),
        group_number(groups, 3),
        group_number(groups, 4),
        group_number(groups, 5),
    ) {
        (Some(year), Some(month), Some(day), Some(hour), Some(minute)) => Some(
            ScheduleFields { year, month, day, hour, minute },
        ),
        _ => None,
    }
}

/// What a search result means for the line `text` of the shop `shop_name` on
/// the page `venue_url`.
pub open spec fn captured_fields(
    found: Option<Seq<Option<Seq<char>>>>,
    text: Seq<char>,
    venue_url: Seq<char>,
    shop_name: Seq<char>,
) -> Result<ScheduleFields, ScrapeErrorView> {
    match found {
        None => Err(ScrapeErrorView::PatternNotFound { text, venue_url, shop_name }),
        Some(groups) => match fields_of(groups) {
            Some(fields) => Ok(fields),
            None => Err(ScrapeErrorView::UnreadableNumber { text, venue_url, shop_name }),
        },
    }
}

/// What a search for `pattern` in `text` finds, or the error that stands
/// for a refused pattern.
pub open spec fn search_of(pattern: Seq<char>, text: Seq<char>) -> Result<
    Option<Seq<Option<Seq<char>>>>,
    ScrapeErrorView,
> {
    if regex_valid(pattern) {
        Ok(regex_captures(pattern, text))
    } else {
        Err(ScrapeErrorView::InvalidPattern)
    }
}

/// What the schedule pattern yields for the line `text`.
pub open spec fn schedule_match(text: Seq<char>, venue_url: Seq<char>, shop_name: Seq<char>)
    -> Result<ScheduleFields, ScrapeErrorView> {
    match search_of(SCHEDULE_PATTERN@, text) {
        Ok(found) => captured_fields(found, text, venue_url, shop_name),
        Err(e) => Err(e),
    }
}

/// A result of the matcher with the texts of its error as sequences.
pub open spec fn fields_result_view(r: Result<ScheduleFields, ScrapeError>) -> Result<
    ScheduleFields,
    ScrapeErrorView,
> {
    match r {
        Ok(fields) => Ok(fields),
        Err(e) => Err(e@),
    }
}

/// Calls `regex::Regex::new`. The pattern is accepted exactly when
/// `regex_valid` says so, and the compiled pattern remembers its source.
#[verifier::external_body]
pub(crate) fn compile(pattern: &str) -> (r: Result<regex::Regex, regex::Error>)
    ensures
        r is Ok == regex_valid(pattern@),
        r matches Ok(re) ==> regex_source(re) == pattern@,
{
    regex::Regex::new(pattern)
}

/// Calls `regex::Regex::captures` and copies the text of each group. The
/// result is the one that `regex_captures` names for the pattern's source.
#[verifier::external_body]
pub(crate) fn captures(re: &regex::Regex, text: &str) -> (r: Option<Vec<Option<String>>>)
    ensures
        captures_view(r) == regex_captures(regex_source(*re), text@),
{
    re.captures(text).map(|found| found.iter().map(|g| g.map(|m| m.as_str().to_string())).collect())
}

fn read_group(groups: &Vec<Option<String>>, i: usize) -> (r: Option<u32>)
    ensures
        r == group_number(groups_view(groups@), i as int),
{
    if i < groups.len() {
        match &groups[i] {
            Some(s) => parse_decimal(s.as_str()),
            None => None,
        }
    } else {
        None
    }
}

/// Reads the five numbers out of the groups of a match.
pub fn read_fields(groups: &Vec<Option<String>>) -> (r: Option<ScheduleFields>)
    ensures
        r == fields_of(groups_view(groups@)),
{
    let year = read_group(groups, 1);
    let month = read_group(groups, 2);
    let day = read_group(groups, 3);
    let hour = read_group(groups, 4);
    let minute = read_group(groups, 5);
    match (year, month, day, hour, minute) {
        (Some(year), Some(month), Some(day), Some(hour), Some(minute)) => Some(
            ScheduleFields { year, month, day, hour, minute },
        ),
        _ => None,
    }
}

/// Decides what a search result means: the fields of the line, that the
/// pattern was not found, or that a number of the line cannot be read. The
/// errors carry the line and where it stood.
pub fn interpret_captures(
    found: &Option<Vec<Option<String>>>,
    text: &str,
    venue_url: &str,
    shop_name: &str,
) -> (r: Result<ScheduleFields, ScrapeError>)
    ensures
        fields_result_view(r) == captured_fields(
            captures_view(*found),
            text@,
            venue_url@,
            shop_name@,
        ),
{
    match found {
        None => Err(
            ScrapeError::PatternNotFound {
                text: String::from_str(text),
                venue_url: String::from_str(venue_url),
                shop_name: String::from_str(shop_name),
            },
        ),
        Some(groups) => match read_fields(groups) {
            Some(fields) => Ok(fields),
            None => Err(
                ScrapeError::UnreadableNumber {
                    text: String::from_str(text),
                    venue_url: String::from_str(venue_url),
                    shop_name: String::from_str(shop_name),
                },
            ),
        },
    }
}

/// Searches `text` for the leftmost match of `pattern` and copies the text
/// of each of its groups, the whole match first.
pub fn search(pattern: &str, text: &str) -> (r: Result<Option<Vec<Option<String>>>, ScrapeError>)
    ensures
        match r {
            Ok(found) => search_of(pattern@, text@) == Ok::<
                Option<Seq<Option<Seq<char>>>>,
                ScrapeErrorView,
            >(captures_view(found)),
            Err(e) => search_of(pattern@, text@) == Err::<
                Option<Seq<Option<Seq<char>>>>,
                ScrapeErrorView,
            >(e@),
        },
{
    match compile(pattern) {
        Ok(re) => Ok(captures(&re, text)),
        Err(_) => Err(ScrapeError::InvalidPattern),
    }
}

/// Searches `text` for the schedule pattern and reads its five numbers.
///
/// The numbers are not held against the calendar: a thirteenth month is
/// returned as 13. `venue_url` and `shop_name` say where the line stood and
/// are copied into the error.
pub fn match_schedule(text: &str, venue_url: &str, shop_name: &str) -> (r: Result<
    ScheduleFields,
    ScrapeError,
>)
    ensures
        fields_result_view(r) == schedule_match(text@, venue_url@, shop_name@),
{
    match search(SCHEDULE_PATTERN, text) {
        Ok(found) => interpret_captures(&found, text, venue_url, shop_name),
        Err(e) => Err(e),
    }
}

/// A line in which the pattern finds nothing is reported as not found, and
/// the report carries the line unchanged.
pub proof fn lemma_no_match_carries_text(
    text: Seq<char>,
    venue_url: Seq<char>,
    shop_name: Seq<char>,
)
    ensures
        regex_valid(SCHEDULE_PATTERN@) && regex_captures(SCHEDULE_PATTERN@, text) is None
            ==> schedule_match(text, venue_url, shop_name) == Err::<
            ScheduleFields,
            ScrapeErrorView,
        >(ScrapeErrorView::PatternNotFound { text, venue_url, shop_name }),
{
}

/// Every failure of the matcher that names a line names the line it was
/// given.
pub proof fn lemma_failure_names_line(text: Seq<char>, venue_url: Seq<char>, shop_name: Seq<char>)
    ensures
        match schedule_match(text, venue_url, shop_name) {
            Err(ScrapeErrorView::PatternNotFound { text: t, venue_url: u, shop_name: s }) => t
                == text && u == venue_url && s == shop_name,
            Err(ScrapeErrorView::UnreadableNumber { text: t, venue_url: u, shop_name: s }) => t
                == text && u == venue_url && s == shop_name,
            Err(e) => e == ScrapeErrorView::InvalidPattern,
            Ok(_) => true,
        },
{
}

} // verus!
