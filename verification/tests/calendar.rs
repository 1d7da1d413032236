use icalendar::{CalendarComponent, Component, DatePerhapsTime, CalendarDateTime, EventLike};
use scout_schedule::calendar::{
    assemble_event, assemble_events, build_calendar, calendar_file, calendar_file_name,
    venue_calendar, EventRecord, VenueOutcome, FILE_EXTENSION,
};
use scout_schedule::error::ScrapeError;
use scout_schedule::venue::ScheduleEntry;

const URL: &str = "https://example.jp/shop/tokyo.html";
const TITLE: &str = "春のイベント";

fn entry(start: i64, shop: &str, address: &str) -> ScheduleEntry {
    ScheduleEntry::new(start, shop.to_string(), address.to_string()).unwrap()
}

fn record(start: i64, end: i64) -> EventRecord {
    EventRecord {
        summary: "s".to_string(),
        description: "d".to_string(),
        location: "l".to_string(),
        start,
        end,
    }
}

fn local(y: i32, m: u32, d: u32, h: u32, mi: u32) -> DatePerhapsTime {
    let time = chrono::NaiveDate::from_ymd_opt(y, m, d).unwrap().and_hms_opt(h, mi, 0).unwrap();
    DatePerhapsTime::DateTime(CalendarDateTime::Floating(time))
}

fn unfolded(text: &str) -> String {
    text.replace("\r\n ", "")
}

#[test]
fn event_is_assembled_from_its_entry() {
    let e = entry(1710495000, "本店", "東京都千代田区1-1");
    assert_eq!(
        assemble_event(&e, TITLE, URL),
        EventRecord {
            summary: TITLE.to_string(),
            description: format!("本店\n{}", URL),
            location: "東京都千代田区1-1".to_string(),
            start: 1710495000,
            end: 1710498600,
        }
    );
}

#[test]
fn events_keep_the_order_of_the_entries() {
    let entries = vec![entry(30, "c", "z"), entry(10, "a", "x"), entry(20, "b", "y")];
    let events = assemble_events(&entries, TITLE, URL);
    assert_eq!(events.len(), 3);
    let starts: Vec<i64> = events.iter().map(|e| e.start).collect();
    assert_eq!(starts, vec![30, 10, 20]);
    for (event, entry) in events.iter().zip(entries.iter()) {
        assert_eq!(event, &assemble_event(entry, TITLE, URL));
        assert_eq!(event.end, event.start + 3600);
    }
    assert_eq!(assemble_events(&vec![], TITLE, URL), vec![]);
}

#[test]
fn file_is_named_after_the_venue() {
    assert_eq!(FILE_EXTENSION, ".ics");
    assert_eq!(calendar_file_name("東京"), "東京.ics");
    assert_eq!(calendar_file_name(""), ".ics");
}

#[test]
fn calendar_file_pairs_text_and_name() {
    assert_eq!(
        calendar_file("東京", Some("text".to_string())),
        Ok(VenueOutcome::Calendar { file_name: "東京.ics".to_string(), contents: "text".to_string() })
    );
    assert_eq!(
        calendar_file("東京", None),
        Err(ScrapeError::WriteFailed { file_name: "東京.ics".to_string() })
    );
}

#[test]
fn calendar_holds_the_events_in_order() {
    let entries = vec![entry(1710550800, "二号店", "大阪"), entry(1710495000, "本店", "東京")];
    let calendar = build_calendar(&assemble_events(&entries, TITLE, URL)).unwrap();
    assert_eq!(calendar.components.len(), 2);
    let events: Vec<&icalendar::Event> = calendar
        .components
        .iter()
        .map(|c| match c {
            CalendarComponent::Event(e) => e,
            _ => panic!("not an event"),
        })
        .collect();
    assert_eq!(events[0].get_summary(), Some(TITLE));
    assert_eq!(events[0].get_description(), Some(format!("二号店\n{}", URL).as_str()));
    assert_eq!(events[0].get_location(), Some("大阪"));
    assert_eq!(events[0].get_start(), Some(local(2024, 3, 16, 10, 0)));
    assert_eq!(events[0].get_end(), Some(local(2024, 3, 16, 11, 0)));
    assert_eq!(events[1].get_location(), Some("東京"));
    assert_eq!(events[1].get_start(), Some(local(2024, 3, 15, 18, 30)));
    assert_eq!(events[1].get_end(), Some(local(2024, 3, 15, 19, 30)));
}

#[test]
fn calendar_of_no_events_is_empty() {
    let calendar = build_calendar(&vec![]).unwrap();
    assert!(calendar.components.is_empty());
}

#[test]
fn calendar_shows_the_listings_clock_across_midnight() {
    let calendar = build_calendar(&vec![record(1735655400, 1735659000)]).unwrap();
    let event = match &calendar.components[0] {
        CalendarComponent::Event(e) => e,
        _ => panic!("not an event"),
    };
    assert_eq!(event.get_start(), Some(local(2024, 12, 31, 23, 30)));
    assert_eq!(event.get_end(), Some(local(2025, 1, 1, 0, 30)));
}

#[test]
fn calendar_refuses_a_moment_it_cannot_show() {
    let far = i64::MAX - 3600;
    assert_eq!(
        build_calendar(&vec![record(0, 3600), record(far, 7)]).err(),
        Some(ScrapeError::UnrepresentableTime { seconds: far })
    );
    assert_eq!(
        build_calendar(&vec![record(0, i64::MIN)]).err(),
        Some(ScrapeError::UnrepresentableTime { seconds: i64::MIN })
    );
}

#[test]
fn round_trip_of_one_entry() {
    let entries = vec![entry(1710495000, "本店", "東京都千代田区1-1")];
    assert_eq!(entries[0].end_time(), 1710498600);
    let outcome = venue_calendar(TITLE, URL, "東京", &entries).unwrap();
    let (file_name, contents) = match outcome {
        VenueOutcome::Calendar { file_name, contents } => (file_name, contents),
        other => panic!("no calendar: {:?}", other),
    };
    assert_eq!(file_name, "東京.ics");
    let text = unfolded(&contents);
    let lines: Vec<&str> = text.split("\r\n").collect();
    assert_eq!(lines.first(), Some(&"BEGIN:VCALENDAR"));
    assert_eq!(lines.iter().filter(|l| **l == "BEGIN:VEVENT").count(), 1);
    assert_eq!(lines.iter().filter(|l| **l == "END:VEVENT").count(), 1);
    let begin = lines.iter().position(|l| *l == "BEGIN:VEVENT").unwrap();
    let end = lines.iter().position(|l| *l == "END:VEVENT").unwrap();
    let block = &lines[begin..end];
    assert!(block.contains(&"DTSTART:20240315T183000"), "{}", text);
    assert!(block.contains(&"DTEND:20240315T193000"), "{}", text);
    assert!(block.contains(&format!("SUMMARY:{}", TITLE).as_str()), "{}", text);
    assert!(block.contains(&"LOCATION:東京都千代田区1-1"), "{}", text);
    assert!(block.contains(&format!("DESCRIPTION:本店\\n{}", URL).as_str()), "{}", text);
    assert!(lines.contains(&"END:VCALENDAR"));
}

#[test]
fn calendar_text_has_one_block_for_each_entry() {
    let entries = vec![entry(1710495000, "a", "x"), entry(1710550800, "b", "y"), entry(0, "c", "z")];
    match venue_calendar(TITLE, URL, "v", &entries).unwrap() {
        VenueOutcome::Calendar { contents, .. } => {
            let text = unfolded(&contents);
            assert_eq!(text.matches("BEGIN:VEVENT").count(), 3);
            let first = text.find("DTSTART:20240315T183000").unwrap();
            let second = text.find("DTSTART:20240316T100000").unwrap();
            let third = text.find("DTSTART:19700101T090000").unwrap();
            assert!(first < second && second < third);
        }
        other => panic!("no calendar: {:?}", other),
    }
}

#[test]
fn venue_without_entries_gets_no_file() {
    assert_eq!(
        venue_calendar(TITLE, URL, "東京", &vec![]),
        Ok(VenueOutcome::NoEvents { title: "東京".to_string() })
    );
}

#[test]
fn venue_with_a_moment_that_cannot_be_shown_fails() {
    let far = i64::MAX - 3600;
    let entries = vec![entry(far, "a", "x")];
    assert_eq!(
        venue_calendar(TITLE, URL, "v", &entries),
        Err(ScrapeError::UnrepresentableTime { seconds: far })
    );
}
