use krabby_do::entry::EventEntry;
use krabby_do::instant::Timestamp;
use krabby_do::notify::send_notifications;

fn entry(title: &str, details: &str, is_done: bool) -> EventEntry {
    EventEntry::new(
        [0u8; 12],
        String::from(title),
        String::from(details),
        Timestamp::new(1_704_877_200, 0),
        is_done,
    )
}

#[test]
fn one_notice_for_each_entry_that_is_not_done() {
    let due = vec![
        entry("Standup", "daily sync", false),
        entry("Dentist", "bring the x-ray", true),
        entry("Groceries", "milk, eggs", false),
    ];
    let notices = send_notifications(&due);
    assert_eq!(notices.len(), 2);
    assert_eq!(notices[0].summary, "Standup");
    assert_eq!(notices[0].body, "daily sync");
    assert_eq!(notices[1].summary, "Groceries");
    assert_eq!(notices[1].body, "milk, eggs");
}

#[test]
fn nothing_to_raise() {
    assert!(send_notifications(&Vec::new()).is_empty());
    assert!(send_notifications(&vec![entry("a", "b", true), entry("c", "d", true)]).is_empty());
}

#[test]
fn summary_is_the_title_and_body_the_details() {
    let notices = send_notifications(&vec![entry("title here", "details there", false)]);
    assert_eq!(notices.len(), 1);
    assert_eq!(notices[0].summary, "title here");
    assert_eq!(notices[0].body, "details there");
}
