use scout_schedule::calendar::VenueOutcome;
use scout_schedule::error::ScrapeError;
use scout_schedule::index::{IndexPage, VenueLink};
use scout_schedule::run::{advance, begin, process_venue, read_listing, read_venue, Action, Event, Phase, Run};

const BASE: &str = "https://example.jp/event/index.html";

fn listing(areas: &[(&str, &str)]) -> Vec<u8> {
    let mut html = String::from(
        "<html><body><div id=\"title\"><img alt=\"春のイベント\"></div><map id=\"m_shop\">",
    );
    for (href, title) in areas {
        html.push_str(&format!("<area href=\"{}\" title=\"{}\">", href, title));
    }
    html.push_str("</map></body></html>");
    html.into_bytes()
}

fn venue(schedules: &[&str]) -> Vec<u8> {
    let mut html = String::from("<html><body>");
    for schedule in schedules {
        html.push_str(&format!(
            "<table class=\"shoplist_resultlist\" cellpadding=\"2\">\
             <tr><td class=\"shopname\">本店</td></tr>\
             <tr><td class=\"list-adtext-detitext\">東京都</td></tr>\
             <tr><td class=\"list-adtext-detitext\"><div>{}</div></td></tr></table>",
            schedule
        ));
    }
    html.push_str("</body></html>");
    html.into_bytes()
}

fn broken_venue() -> Vec<u8> {
    "<table class=\"shoplist_resultlist\" cellpadding=\"2\"><tr><td>a</td></tr><tr><td>b</td></tr></table>"
        .as_bytes()
        .to_vec()
}

fn fetch(url: &str) -> Action {
    Action::Fetch { url: url.to_string() }
}

fn started() -> Run {
    let (run, action) = begin(BASE);
    assert_eq!(action, fetch(BASE));
    assert_eq!(run.phase(), Phase::AwaitListing);
    run
}

fn at_first_venue(areas: &[(&str, &str)]) -> Run {
    let (run, action) = advance(started(), Event::Fetched { body: listing(areas) });
    assert_eq!(run.phase(), Phase::AwaitVenue);
    assert!(matches!(action, Action::Fetch { .. }));
    run
}

#[test]
fn begin_refuses_a_malformed_url() {
    let (run, action) = begin("not a url");
    assert_eq!(
        action,
        Action::Abort { error: ScrapeError::MalformedUrl { url: "not a url".to_string() } }
    );
    assert!(run.is_finished());
    let (run, action) = advance(run, Event::Fetched { body: listing(&[("a.html", "a")]) });
    assert_eq!(action, Action::Finish);
    assert!(run.is_finished());
}

#[test]
fn begin_asks_for_the_listing() {
    let (run, action) = begin("HTTPS://EXAMPLE.jp");
    assert_eq!(action, fetch("https://example.jp/"));
    assert!(!run.is_finished());
}

#[test]
fn run_visits_every_venue_in_order() {
    let run = started();
    let body = listing(&[("tokyo.html", "東京"), ("osaka.html", "大阪"), ("/nagoya.html", "名古屋")]);
    let (run, action) = advance(run, Event::Fetched { body });
    assert_eq!(action, fetch("https://example.jp/event/tokyo.html"));

    let (run, action) =
        advance(run, Event::Fetched { body: venue(&["<strong>2024年3月15日 /18:30～</strong>"]) });
    assert_eq!(run.phase(), Phase::AwaitReport);
    match action {
        Action::Write { file_name, contents } => {
            assert_eq!(file_name, "東京.ics");
            assert!(contents.contains("DTSTART:20240315T183000"));
            assert!(contents.contains("SUMMARY:春のイベント"));
        }
        other => panic!("expected a file, got {:?}", other),
    }

    let (run, action) = advance(run, Event::Completed);
    assert_eq!(action, fetch("https://example.jp/event/osaka.html"));
    assert_eq!(run.phase(), Phase::AwaitVenue);

    let (run, action) = advance(run, Event::Fetched { body: venue(&[]) });
    assert_eq!(action, Action::Notify { title: "大阪".to_string() });
    assert_eq!(run.phase(), Phase::AwaitReport);

    let (run, action) = advance(run, Event::Completed);
    assert_eq!(action, fetch("https://example.jp/nagoya.html"));

    let (run, action) = advance(run, Event::Fetched { body: venue(&["<hr>"]) });
    assert_eq!(action, Action::Notify { title: "名古屋".to_string() });

    let (run, action) = advance(run, Event::Completed);
    assert_eq!(action, Action::Finish);
    assert!(run.is_finished());

    let (run, action) = advance(run, Event::Completed);
    assert_eq!(action, Action::Finish);
    assert_eq!(run.phase(), Phase::Finished);
}

#[test]
fn run_over_a_listing_without_venues_is_over_at_once() {
    let (run, action) = advance(started(), Event::Fetched { body: listing(&[]) });
    assert_eq!(action, Action::Finish);
    assert!(run.is_finished());
}

#[test]
fn listing_without_title_ends_the_run_before_any_venue() {
    let body = b"<map id=\"m_shop\"><area href=\"a.html\" title=\"a\"></map>".to_vec();
    let (run, action) = advance(started(), Event::Fetched { body });
    assert_eq!(action, Action::Abort { error: ScrapeError::MissingTitle });
    assert!(run.is_finished());
    let (_, action) = advance(run, Event::Completed);
    assert_eq!(action, Action::Finish);
}

#[test]
fn listing_that_cannot_be_fetched_ends_the_run() {
    let (run, action) = advance(started(), Event::FetchFailed);
    assert_eq!(action, Action::Abort { error: ScrapeError::FetchFailed { url: BASE.to_string() } });
    assert!(run.is_finished());
}

#[test]
fn venue_that_cannot_be_fetched_ends_the_run() {
    let run = at_first_venue(&[("tokyo.html", "東京"), ("osaka.html", "大阪")]);
    let (run, action) = advance(run, Event::FetchFailed);
    assert_eq!(
        action,
        Action::Abort {
            error: ScrapeError::FetchFailed { url: "https://example.jp/event/tokyo.html".to_string() }
        }
    );
    assert!(run.is_finished());
}

#[test]
fn venue_with_a_misshapen_table_ends_the_run_after_the_first_file() {
    let run = at_first_venue(&[("tokyo.html", "東京"), ("osaka.html", "大阪"), ("c.html", "c")]);
    let (run, action) =
        advance(run, Event::Fetched { body: venue(&["<strong>2024年3月15日 /18:30～</strong>"]) });
    assert!(matches!(action, Action::Write { .. }));
    let (run, action) = advance(run, Event::Completed);
    assert_eq!(action, fetch("https://example.jp/event/osaka.html"));
    let (run, action) = advance(run, Event::Fetched { body: broken_venue() });
    assert_eq!(
        action,
        Action::Abort {
            error: ScrapeError::UnexpectedTableShape {
                venue_url: "https://example.jp/event/osaka.html".to_string(),
                rows: 2,
            }
        }
    );
    assert!(run.is_finished());
    let (run, action) = advance(run, Event::Completed);
    assert_eq!(action, Action::Finish);
    assert!(run.is_finished());
}

#[test]
fn file_that_cannot_be_written_ends_the_run() {
    let run = at_first_venue(&[("tokyo.html", "東京"), ("osaka.html", "大阪")]);
    let (run, action) =
        advance(run, Event::Fetched { body: venue(&["<strong>2024年3月15日 /18:30～</strong>"]) });
    assert!(matches!(action, Action::Write { .. }));
    let (run, action) = advance(run, Event::WriteFailed);
    assert_eq!(
        action,
        Action::Abort { error: ScrapeError::WriteFailed { file_name: "東京.ics".to_string() } }
    );
    assert!(run.is_finished());
}

#[test]
fn answer_that_fits_no_action_ends_the_run() {
    let aborted = Action::Abort { error: ScrapeError::UnexpectedEvent };
    for event in [Event::Completed, Event::WriteFailed] {
        let (run, action) = advance(started(), event);
        assert_eq!(action, aborted);
        assert!(run.is_finished());
    }
    for event in [Event::Completed, Event::WriteFailed] {
        let (run, action) = advance(at_first_venue(&[("a.html", "a")]), event);
        assert_eq!(action, aborted);
        assert!(run.is_finished());
    }
    for event in [Event::FetchFailed, Event::Fetched { body: vec![] }] {
        let (run, _) = advance(at_first_venue(&[("a.html", "a")]), Event::Fetched { body: venue(&[]) });
        assert_eq!(run.phase(), Phase::AwaitReport);
        let (run, action) = advance(run, event);
        assert_eq!(action, aborted);
        assert!(run.is_finished());
    }
}

#[test]
fn read_listing_reads_title_and_links() {
    assert_eq!(
        read_listing(&listing(&[("a.html", "a")]), BASE),
        Ok(IndexPage {
            event_title: "春のイベント".to_string(),
            venue_links: vec![VenueLink {
                title: "a".to_string(),
                url: "https://example.jp/event/a.html".to_string()
            }],
        })
    );
}

#[test]
fn read_venue_reads_the_entries() {
    let found = read_venue(&venue(&["<strong>2024年3月15日 /18:30～</strong>"]), BASE).unwrap();
    assert_eq!(found.len(), 1);
    assert_eq!(found[0].start_time(), 1710495000);
    assert_eq!(found[0].shop_name(), "本店");
    assert_eq!(found[0].address(), "東京都");
}

#[test]
fn process_venue_names_the_file_after_the_venue_not_the_shop() {
    let link = VenueLink { title: "東京".to_string(), url: "https://example.jp/t.html".to_string() };
    let body = venue(&["<strong>2024年3月15日 /18:30～</strong>"]);
    match process_venue(&body, "春", &link).unwrap() {
        VenueOutcome::Calendar { file_name, contents } => {
            assert_eq!(file_name, "東京.ics");
            assert!(contents.contains("https://example.jp/t.html"));
        }
        other => panic!("no calendar: {:?}", other),
    }
    assert_eq!(
        process_venue(&venue(&[]), "春", &link),
        Ok(VenueOutcome::NoEvents { title: "東京".to_string() })
    );
    assert_eq!(
        process_venue(&broken_venue(), "春", &link),
        Err(ScrapeError::UnexpectedTableShape { venue_url: "https://example.jp/t.html".to_string(), rows: 2 })
    );
}
