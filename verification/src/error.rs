//! The ways in which a run can fail.

use vstd::prelude::*;

verus! {

/// Why a page, a link or a schedule line was refused.
///
/// Every failure that concerns a venue names the venue's address, and where a
/// schedule line is at fault also the shop and the line itself.
#[derive(Debug, PartialEq, Eq)]
pub enum ScrapeError {
    /// The address given for the listing is no URL.
    MalformedUrl { url: String },
    /// A page could not be fetched.
    FetchFailed { url: String },
    /// A calendar file could not be written.
    WriteFailed { file_name: String },
    /// The bytes of a page could not be read as a document.
    UnreadableDocument,
    /// A selector was refused by the selector engine.
    InvalidSelector { selector: String },
    /// The schedule pattern was refused by the pattern engine.
    InvalidPattern,
    /// The listing has no title image.
    MissingTitle,
    /// The title image of the listing has no alternative text.
    MissingTitleText,
    /// A venue link lacks its target or its title; `position` counts the links
    /// of the listing from zero.
    MalformedVenueLink { position: usize },
    /// The target of a venue link cannot be resolved against the listing's
    /// address.
    UnresolvableLink { href: String },
    /// A result table of a venue page does not have exactly three rows.
    UnexpectedTableShape { venue_url: String, rows: usize },
    /// The first row of a result table names no shop.
    MissingShopName { venue_url: String },
    /// The second row of a result table holds no address.
    MissingAddress { venue_url: String },
    /// The schedule pattern occurs nowhere in a text.
    PatternNotFound { text: String, venue_url: String, shop_name: String },
    /// The schedule pattern was found, but one of its numbers cannot be read.
    UnreadableNumber { text: String, venue_url: String, shop_name: String },
    /// A schedule line of a venue page does not follow the schedule pattern.
    UnrecognizableSchedule { venue_url: String, shop_name: String, text: String },
    /// A schedule line names a moment that does not exist.
    InvalidTimestamp { venue_url: String, shop_name: String, text: String },
    /// A moment, in seconds since the Unix epoch, lies outside the years that
    /// a calendar can show.
    UnrepresentableTime { seconds: i64 },
    /// The caller answered with something other than the outcome of the
    /// action it was given.
    UnexpectedEvent,
}

/// A [`ScrapeError`] with its texts as sequences of characters.
pub enum ScrapeErrorView {
    MalformedUrl { url: Seq<char> },
    FetchFailed { url: Seq<char> },
    WriteFailed { file_name: Seq<char> },
    UnreadableDocument,
    InvalidSelector { selector: Seq<char> },
    InvalidPattern,
    MissingTitle,
    MissingTitleText,
    MalformedVenueLink { position: nat },
    UnresolvableLink { href: Seq<char> },
    UnexpectedTableShape { venue_url: Seq<char>, rows: nat },
    MissingShopName { venue_url: Seq<char> },
    MissingAddress { venue_url: Seq<char> },
    PatternNotFound { text: Seq<char>, venue_url: Seq<char>, shop_name: Seq<char> },
    UnreadableNumber { text: Seq<char>, venue_url: Seq<char>, shop_name: Seq<char> },
    UnrecognizableSchedule { venue_url: Seq<char>, shop_name: Seq<char>, text: Seq<char> },
    InvalidTimestamp { venue_url: Seq<char>, shop_name: Seq<char>, text: Seq<char> },
    UnrepresentableTime { seconds: int },
    UnexpectedEvent,
}

impl View for ScrapeError {
    type V = ScrapeErrorView;

    open spec fn view(&self) -> ScrapeErrorView {
        match *self {
            ScrapeError::MalformedUrl { url } => ScrapeErrorView::MalformedUrl { url: url@ },
            ScrapeError::FetchFailed { url } => ScrapeErrorView::FetchFailed { url: url@ },
            ScrapeError::WriteFailed { file_name } => ScrapeErrorView::WriteFailed {
                file_name: file_name@,
            },
            ScrapeError::UnreadableDocument => ScrapeErrorView::UnreadableDocument,
            ScrapeError::InvalidSelector { selector } => ScrapeErrorView::InvalidSelector {
                selector: selector@,
            },
            ScrapeError::InvalidPattern => ScrapeErrorView::InvalidPattern,
            ScrapeError::MissingTitle => ScrapeErrorView::MissingTitle,
            ScrapeError::MissingTitleText => ScrapeErrorView::MissingTitleText,
            ScrapeError::MalformedVenueLink { position } => ScrapeErrorView::MalformedVenueLink {
                position: position as nat,
            },
            ScrapeError::UnresolvableLink { href } => ScrapeErrorView::UnresolvableLink {
                href: href@,
            },
            ScrapeError::UnexpectedTableShape { venue_url, rows } => {
                ScrapeErrorView::UnexpectedTableShape { venue_url: venue_url@, rows: rows as nat }
            },
            ScrapeError::MissingShopName { venue_url } => ScrapeErrorView::MissingShopName {
                venue_url: venue_url@,
            },
            ScrapeError::MissingAddress { venue_url } => ScrapeErrorView::MissingAddress {
                venue_url: venue_url@,
            },
            ScrapeError::PatternNotFound { text, venue_url, shop_name } => {
                ScrapeErrorView::PatternNotFound {
                    text: text@,
                    venue_url: venue_url@,
                    shop_name: shop_name@,
                }
            },
            ScrapeError::UnreadableNumber { text, venue_url, shop_name } => {
                ScrapeErrorView::UnreadableNumber {
                    text: text@,
                    venue_url: venue_url@,
                    shop_name: shop_name@,
                }
            },
            ScrapeError::UnrecognizableSchedule { venue_url, shop_name, text } => {
                ScrapeErrorView::UnrecognizableSchedule {
                    venue_url: venue_url@,
                    shop_name: shop_name@,
                    text: text@,
                }
            },
            ScrapeError::InvalidTimestamp { venue_url, shop_name, text } => {
                ScrapeErrorView::InvalidTimestamp {
                    venue_url: venue_url@,
                    shop_name: shop_name@,
                    text: text@,
                }
            },
            ScrapeError::UnrepresentableTime { seconds } => ScrapeErrorView::UnrepresentableTime {
                seconds: seconds as int,
            },
            ScrapeError::UnexpectedEvent => ScrapeErrorView::UnexpectedEvent,
        }
    }
}

} // verus!
