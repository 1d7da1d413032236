use scout_schedule::error::ScrapeError;
use scout_schedule::pattern::{
    interpret_captures, match_schedule, read_fields, search, ScheduleFields, SCHEDULE_PATTERN,
};

const URL: &str = "https://example.jp/shop/1";
const SHOP: &str = "本店";

fn fields(year: u32, month: u32, day: u32, hour: u32, minute: u32) -> ScheduleFields {
    ScheduleFields { year, month, day, hour, minute }
}

fn some(text: &str) -> Option<String> {
    Some(text.to_string())
}

#[test]
fn matcher_reads_date_and_time() {
    let found = match_schedule("2024年3月15日(金) 開催/18:30～", URL, SHOP);
    assert_eq!(found, Ok(fields(2024, 3, 15, 18, 30)));
}

#[test]
fn matcher_reads_across_line_breaks() {
    for text in [
        "2024年3月15日\n/18:30～",
        "2024年3月15日\r\n(金)\n\nなにか\n/18:30～20:00",
        "前置き\n2024年3月15日 junk\njunk /18:30～ 後ろ",
        "...2024年3月15日...junk.../18:30～...",
    ] {
        assert_eq!(match_schedule(text, URL, SHOP), Ok(fields(2024, 3, 15, 18, 30)), "{}", text);
    }
}

#[test]
fn matcher_takes_the_last_time_of_day() {
    let found = match_schedule("2024年3月15日 受付/17:00～ 開始/18:30～", URL, SHOP);
    assert_eq!(found, Ok(fields(2024, 3, 15, 18, 30)));
}

#[test]
fn matcher_does_not_judge_the_numbers() {
    let found = match_schedule("2024年13月45日 /25:99～", URL, SHOP);
    assert_eq!(found, Ok(fields(2024, 13, 45, 25, 99)));
    let found = match_schedule("0年0月0日 /0:0～", URL, SHOP);
    assert_eq!(found, Ok(fields(0, 0, 0, 0, 0)));
}

#[test]
fn matcher_needs_something_between_date_and_time() {
    let text = "2024年3月15日/18:30～";
    assert_eq!(
        match_schedule(text, URL, SHOP),
        Err(ScrapeError::PatternNotFound {
            text: text.to_string(),
            venue_url: URL.to_string(),
            shop_name: SHOP.to_string(),
        })
    );
}

#[test]
fn failure_carries_the_text_verbatim() {
    for text in [
        "",
        "近日開催",
        "2024年3月15日",
        "/18:30～",
        "/18:30～ 2024年3月15日",
        "2024年3月15日 18:30～",
        "2024-03-15 /18:30～",
        "  2024年3月15日 /18:30から \n",
    ] {
        assert_eq!(
            match_schedule(text, URL, SHOP),
            Err(ScrapeError::PatternNotFound {
                text: text.to_string(),
                venue_url: URL.to_string(),
                shop_name: SHOP.to_string(),
            }),
            "{:?}",
            text
        );
    }
}

#[test]
fn number_that_does_not_fit_is_unreadable() {
    let text = "99999999999年3月15日 /18:30～";
    assert_eq!(
        match_schedule(text, URL, SHOP),
        Err(ScrapeError::UnreadableNumber {
            text: text.to_string(),
            venue_url: URL.to_string(),
            shop_name: SHOP.to_string(),
        })
    );
}

#[test]
fn full_width_digits_are_found_but_unreadable() {
    let text = "２０２４年３月１５日 /１８:３０～";
    assert_eq!(
        match_schedule(text, URL, SHOP),
        Err(ScrapeError::UnreadableNumber {
            text: text.to_string(),
            venue_url: URL.to_string(),
            shop_name: SHOP.to_string(),
        })
    );
}

#[test]
fn search_hands_out_every_group() {
    let found = search(r"(\d+)-(\d+)(x)?", "a 12-34 b").unwrap();
    assert_eq!(found, Some(vec![some("12-34"), some("12"), some("34"), None]));
    assert_eq!(search(r"(\d+)-(\d+)", "nothing here").unwrap(), None);
}

#[test]
fn search_finds_the_leftmost_match() {
    let found = search(r"(\d+)", "a 7 b 8").unwrap();
    assert_eq!(found, Some(vec![some("7"), some("7")]));
}

#[test]
fn search_with_the_schedule_pattern() {
    let found = search(SCHEDULE_PATTERN, "x2024年3月15日 y/18:30～z").unwrap();
    assert_eq!(
        found,
        Some(vec![
            some("2024年3月15日 y/18:30～"),
            some("2024"),
            some("3"),
            some("15"),
            some("18"),
            some("30"),
        ])
    );
}

#[test]
fn search_refuses_a_broken_pattern() {
    assert_eq!(search("(", "text"), Err(ScrapeError::InvalidPattern));
    assert_eq!(search(r"\w{100000}", "text"), Err(ScrapeError::InvalidPattern));
}

#[test]
fn read_fields_takes_groups_one_to_five() {
    let groups = vec![some("ignored"), some("2024"), some("03"), some("15"), some("18"), some("30")];
    assert_eq!(read_fields(&groups), Some(fields(2024, 3, 15, 18, 30)));
}

#[test]
fn read_fields_needs_all_five_numbers() {
    assert_eq!(read_fields(&vec![]), None);
    assert_eq!(read_fields(&vec![some("x"), some("1"), some("2"), some("3"), some("4")]), None);
    assert_eq!(
        read_fields(&vec![some("x"), some("1"), None, some("3"), some("4"), some("5")]),
        None
    );
    assert_eq!(
        read_fields(&vec![some("x"), some("1"), some("2"), some("3"), some("4"), some("")]),
        None
    );
    assert_eq!(
        read_fields(&vec![some("x"), some("1"), some("2"), some("+3"), some("4"), some("5")]),
        None
    );
}

#[test]
fn interpret_captures_tells_the_three_cases() {
    let text = "the line";
    assert_eq!(
        interpret_captures(&None, text, URL, SHOP),
        Err(ScrapeError::PatternNotFound {
            text: text.to_string(),
            venue_url: URL.to_string(),
            shop_name: SHOP.to_string(),
        })
    );
    let groups = Some(vec![some("all"), some("1"), some("2"), some("3"), some("4"), some("5")]);
    assert_eq!(interpret_captures(&groups, text, URL, SHOP), Ok(fields(1, 2, 3, 4, 5)));
    let groups = Some(vec![some("all"), some("1"), some("2"), some("3"), some("4"), some("five")]);
    assert_eq!(
        interpret_captures(&groups, text, URL, SHOP),
        Err(ScrapeError::UnreadableNumber {
            text: text.to_string(),
            venue_url: URL.to_string(),
            shop_name: SHOP.to_string(),
        })
    );
}
