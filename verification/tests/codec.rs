use bson::oid::ObjectId;
use bson::{Bson, Document};
use krabby_do::codec::{due_filter, entries_due, id_filter, range_filter, set_update};
use krabby_do::entry::{same_id, EventEntry};
use krabby_do::error::StoreError;
use krabby_do::instant::Timestamp;
use std::str::FromStr;

fn stored() -> Document {
    let mut document = Document::new();
    document.insert("_id", ObjectId::from_str("6482a04d44d9bc1cff4c66d7").unwrap());
    document.insert("title", "Standup");
    document.insert("details", "daily sync");
    document.insert("date_time", "2024-01-10T09:00:00+00:00");
    document.insert("is_done", false);
    document.insert("tags", "work");
    document
}

fn standup() -> EventEntry {
    EventEntry::new(
        ObjectId::from_str("6482a04d44d9bc1cff4c66d7").unwrap().bytes(),
        String::from("Standup"),
        String::from("daily sync"),
        Timestamp::new(1_704_877_200, 0),
        false,
    )
    .with_tags(String::from("work"))
}

#[test]
fn new_entry_has_no_tags() {
    let entry = EventEntry::new(
        [1u8; 12],
        String::from("Standup"),
        String::from("daily sync"),
        Timestamp::new(1_704_877_200, 0),
        true,
    );
    assert_eq!(entry.unique_id, [1u8; 12]);
    assert_eq!(entry.title, "Standup");
    assert_eq!(entry.details, "daily sync");
    assert_eq!(entry.date_time, Timestamp::new(1_704_877_200, 0));
    assert!(entry.is_done);
    assert_eq!(entry.tags, "");
    let tagged = entry.clone().with_tags(String::from("work"));
    assert_eq!(tagged.tags, "work");
    assert_eq!(tagged.title, entry.title);
    assert_ne!(tagged, entry);
    assert_eq!(entry.clone(), entry);
}

#[test]
fn entries_differ_when_one_field_differs() {
    let base = standup();
    let mut other = standup();
    assert_eq!(base, other);
    other.unique_id[11] ^= 1;
    assert_ne!(base, other);
    let mut other = standup();
    other.title.push('!');
    assert_ne!(base, other);
    let mut other = standup();
    other.details.push('!');
    assert_ne!(base, other);
    let mut other = standup();
    other.date_time.secs += 1;
    assert_ne!(base, other);
    let mut other = standup();
    other.date_time.nanos += 1;
    assert_ne!(base, other);
    let mut other = standup();
    other.is_done = true;
    assert_ne!(base, other);
    let mut other = standup();
    other.tags.clear();
    assert_ne!(base, other);
}

#[test]
fn same_id_compares_all_twelve_bytes() {
    let id = [3u8; 12];
    assert!(same_id(&id, &[3u8; 12]));
    for place in 0..12 {
        let mut other = id;
        other[place] = 4;
        assert!(!same_id(&id, &other));
    }
}

#[test]
fn document_of_an_entry() {
    let document = standup().to_document().unwrap();
    let mut expected = stored();
    expected.remove("_id");
    assert_eq!(document, expected);
}

#[test]
fn document_with_a_given_stamp() {
    let document = standup().to_document_stamped("whenever");
    assert_eq!(document.len(), 5);
    assert_eq!(document.get_str("title"), Ok("Standup"));
    assert_eq!(document.get_str("details"), Ok("daily sync"));
    assert_eq!(document.get_str("date_time"), Ok("whenever"));
    assert_eq!(document.get_bool("is_done"), Ok(false));
    assert_eq!(document.get_str("tags"), Ok("work"));
}

#[test]
fn document_needs_a_canonical_text() {
    let mut entry = standup();
    entry.date_time = Timestamp::new(253_402_300_800, 0);
    assert_eq!(entry.to_document(), None);
    assert_eq!(entry.to_update(), None);
}

#[test]
fn update_sets_the_fields_of_the_entry() {
    let update = standup().to_update().unwrap();
    let mut fields = stored();
    fields.remove("_id");
    let mut expected = Document::new();
    expected.insert("$set", fields.clone());
    assert_eq!(update, expected);
    assert_eq!(set_update(fields), expected);
}

#[test]
fn filter_by_identifier() {
    let id = ObjectId::from_str("6482a04d44d9bc1cff4c66d7").unwrap();
    let filter = id_filter(id.bytes());
    let mut expected = Document::new();
    expected.insert("_id", id);
    assert_eq!(filter, expected);
}

#[test]
fn filter_by_range() {
    let filter = range_filter("a", "b");
    let mut range = Document::new();
    range.insert("$gte", "a");
    range.insert("$lt", "b");
    let mut expected = Document::new();
    expected.insert("date_time", range);
    assert_eq!(filter, expected);
}

#[test]
fn filter_for_the_day() {
    let filter = due_filter(&Timestamp::new(1_704_877_200, 5)).unwrap();
    assert_eq!(
        filter,
        range_filter("2024-01-10T00:00:00+00:00", "2024-01-11T00:00:00+00:00")
    );
    let last_day = due_filter(&Timestamp::new(253_402_300_799, 0));
    assert_eq!(last_day, None);
    assert_eq!(due_filter(&Timestamp::new(i64::MIN, 0)), None);
    assert_eq!(due_filter(&Timestamp::new(i64::MAX, 0)), None);
}

#[test]
fn entry_of_a_document() {
    assert_eq!(EventEntry::from_document(&stored()), Ok(standup()));
}

#[test]
fn entry_of_a_document_with_a_given_instant() {
    let mut document = stored();
    document.remove("date_time");
    let entry = EventEntry::from_document_due(&document, Timestamp::new(7, 8)).unwrap();
    let mut expected = standup();
    expected.date_time = Timestamp::new(7, 8);
    assert_eq!(entry, expected);
    document.remove("title");
    assert_eq!(
        EventEntry::from_document_due(&document, Timestamp::new(7, 8)),
        Err(StoreError::DeserializationError)
    );
}

#[test]
fn tags_are_optional() {
    let mut document = stored();
    document.remove("tags");
    let entry = EventEntry::from_document(&document).unwrap();
    assert_eq!(entry.tags, "");
    assert_eq!(entry.title, "Standup");
}

#[test]
fn other_keys_are_ignored() {
    let mut document = stored();
    document.insert("priority", 3);
    document.insert("owner", "nobody");
    assert_eq!(EventEntry::from_document(&document), Ok(standup()));
}

#[test]
fn a_missing_required_field_is_a_deserialization_error() {
    for key in ["_id", "title", "details", "date_time", "is_done"] {
        let mut document = stored();
        document.remove(key);
        assert_eq!(
            EventEntry::from_document(&document),
            Err(StoreError::DeserializationError),
            "without {}",
            key
        );
    }
    assert_eq!(
        EventEntry::from_document(&Document::new()),
        Err(StoreError::DeserializationError)
    );
}

#[test]
fn a_required_field_of_the_wrong_kind_is_a_deserialization_error() {
    for key in ["_id", "title", "details", "date_time", "is_done"] {
        let mut document = stored();
        document.insert(key, 17);
        assert_eq!(
            EventEntry::from_document(&document),
            Err(StoreError::DeserializationError),
            "with a number under {}",
            key
        );
    }
    let mut document = stored();
    document.insert("_id", "6482a04d44d9bc1cff4c66d7");
    assert_eq!(EventEntry::from_document(&document), Err(StoreError::DeserializationError));
    let mut document = stored();
    document.insert("is_done", "false");
    assert_eq!(EventEntry::from_document(&document), Err(StoreError::DeserializationError));
}

#[test]
fn tags_of_another_kind_read_as_no_tags() {
    let mut expected = standup();
    expected.tags.clear();
    for value in [Bson::Null, Bson::Boolean(true), Bson::Int32(17), Bson::Document(Document::new())] {
        let mut document = stored();
        document.insert("tags", value.clone());
        assert_eq!(
            EventEntry::from_document(&document),
            Ok(expected.clone()),
            "with {:?} under tags",
            value
        );
        assert_eq!(
            EventEntry::from_documents(&vec![stored(), document]),
            Ok(vec![standup(), expected.clone()])
        );
    }
}

#[test]
fn an_unreadable_due_instant_is_a_deserialization_error() {
    for text in ["", "soon", "2024-01-10", "2024-01-10 00:00:00", "2024-02-30T00:00:00Z"] {
        let mut document = stored();
        document.insert("date_time", text);
        assert_eq!(
            EventEntry::from_document(&document),
            Err(StoreError::DeserializationError),
            "with {:?}",
            text
        );
    }
}

#[test]
fn documents_are_read_in_order() {
    let mut second = stored();
    second.insert("title", "Retro");
    second.insert("is_done", true);
    let entries = EventEntry::from_documents(&vec![stored(), second, stored()]).unwrap();
    assert_eq!(entries.len(), 3);
    assert_eq!(entries[0], standup());
    assert_eq!(entries[1].title, "Retro");
    assert!(entries[1].is_done);
    assert_eq!(entries[2], standup());
    assert_eq!(EventEntry::from_documents(&Vec::new()), Ok(Vec::new()));
}

#[test]
fn one_bad_document_fails_the_whole_list() {
    let mut bad = stored();
    bad.remove("date_time");
    for documents in [
        vec![bad.clone()],
        vec![bad.clone(), stored()],
        vec![stored(), bad.clone()],
        vec![stored(), bad.clone(), stored()],
    ] {
        assert_eq!(
            EventEntry::from_documents(&documents),
            Err(StoreError::DeserializationError)
        );
    }
}

#[test]
fn entries_due_keeps_order_and_ignores_completion() {
    let day = 1_704_844_800;
    let entry = |title: &str, secs: i64, is_done: bool| {
        EventEntry::new([0u8; 12], String::from(title), String::new(), Timestamp::new(secs, 0), is_done)
    };
    let entries = vec![
        entry("late", day + 80_000, false),
        entry("before", day - 1, false),
        entry("done", day + 10, true),
        entry("after", day + 86_400, true),
        entry("first", day, false),
    ];
    let due = entries_due(&entries, &Timestamp::new(day + 40_000, 0));
    let titles: Vec<&str> = due.iter().map(|entry| entry.title.as_str()).collect();
    assert_eq!(titles, vec!["late", "done", "first"]);
    assert_eq!(due[1], entries[2]);
    assert!(entries_due(&Vec::new(), &Timestamp::new(day, 0)).is_empty());
}
