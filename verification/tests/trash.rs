use data_fetcher::trash::{get_trash, trash_url, ShortTrashInfo, TrashError, TrashInfo, PGH_ST_URL};

fn entry(tag: &str, holiday: bool, other: bool) -> TrashInfo {
    TrashInfo {
        division: format!("division {tag}"),
        next_yard_date: format!("yard {tag}"),
        next_recycling_date_long: format!("Recycling day {tag}"),
        regular_trash_pickup_day: 3,
        zip: 15213,
        next_yard_date_long: format!("Yard day {tag}"),
        division_sched: 2,
        number: "4400".to_string(),
        next_pickup_date: format!("pickup {tag}"),
        holiday_cancellation: holiday,
        street: "Forbes Ave".to_string(),
        hood: "Oakland".to_string(),
        other_cancellation: other,
        next_pickup_date_long: format!("Pickup day {tag}"),
        next_recycling_date: format!("recycling {tag}"),
        next_recycling: "yes".to_string(),
    }
}

#[test]
fn single_entry_gives_its_short_record() {
    let short = get_trash(vec![entry("a", true, false)]).unwrap();
    assert_eq!(short.next_yard_date_long, "Yard day a");
    assert_eq!(short.next_recycling_date_long, "Recycling day a");
    assert_eq!(short.next_pickup_date_long, "Pickup day a");
    assert!(short.holiday_cancellation);
    assert!(!short.other_cancellation);
}

#[test]
fn empty_reply_is_refused_with_zero() {
    assert!(matches!(get_trash(Vec::new()), Err(TrashError::ResponseError(0))));
}

#[test]
fn two_entries_are_refused_with_two() {
    let res = get_trash(vec![entry("a", false, false), entry("b", false, true)]);
    assert!(matches!(res, Err(TrashError::ResponseError(2))));
}

#[test]
fn three_entries_are_refused_with_three() {
    let res = get_trash(vec![entry("a", false, false), entry("b", false, true), entry("c", true, true)]);
    assert_eq!(res.err(), Some(TrashError::ResponseError(3)));
}

#[test]
fn from_keeps_the_five_fields() {
    let short: ShortTrashInfo = entry("z", false, true).into();
    assert_eq!(short.next_yard_date_long, "Yard day z");
    assert_eq!(short.next_recycling_date_long, "Recycling day z");
    assert_eq!(short.next_pickup_date_long, "Pickup day z");
    assert!(!short.holiday_cancellation);
    assert!(short.other_cancellation);
}

#[test]
fn single_entry_agrees_with_from() {
    let via_list = get_trash(vec![entry("q", true, true)]).unwrap();
    let via_from = ShortTrashInfo::from(entry("q", true, true));
    assert_eq!(via_list.next_pickup_date_long, via_from.next_pickup_date_long);
    assert_eq!(via_list.next_yard_date_long, via_from.next_yard_date_long);
    assert_eq!(via_list.next_recycling_date_long, via_from.next_recycling_date_long);
    assert_eq!(via_list.holiday_cancellation, via_from.holiday_cancellation);
    assert_eq!(via_list.other_cancellation, via_from.other_cancellation);
}

#[test]
fn trash_url_appends_the_location() {
    assert_eq!(trash_url("4400%20Forbes%20Ave"), "https://pgh.st/locate/4400%20Forbes%20Ave");
    assert_eq!(trash_url(""), PGH_ST_URL);
}
