//! The state behind the window: the list of entries, the entry shown in the
//! details panel and the fields of the dialog for a new or an edited entry.
//!
//! Nothing here draws. Each handler says how the state changes when a widget
//! is used, and the ones that lead to a store operation begin it: the OK
//! button of the dialog and the Delete button of an entry.

use crate::entry::{entry_views, EntryView, EventEntry};
use crate::instant::{
    date_of, formatted, hour_of_day, instant_on, minute_of_hour, utc_calendar_date,
    utc_from_civil, write_formatted, CalendarDate, Timestamp,
};
use crate::store::{opening, OperationView, Progress, ProgressView};
use crate::text::{has_part_ignoring_case, holds_lowercase, lowercased, to_lowercase};
use vstd::prelude::*;

verus! {

/// The half of the day that a twelve-hour clock time lies in.
#[derive(Clone, Copy, Debug, PartialEq, Eq, Structural)]
pub enum AmPm {
    Am,
    Pm,
}

/// The state behind the window.
#[derive(Debug)]
pub struct KrabbyDoUi {
    /// Whether the dialog for a new or an edited entry is shown.
    pub is_show_new_edit_dialog: bool,
    /// Whether the details panel shows an entry.
    pub is_show_central_panel_context_elements: bool,
    /// The title field of the dialog.
    pub new_event_title: String,
    /// The details field of the dialog.
    pub new_event_details: String,
    /// The date field of the dialog.
    pub new_event_date: Option<CalendarDate>,
    /// The hour field of the dialog, on a twelve-hour clock.
    pub new_event_hour: u32,
    /// The minute field of the dialog.
    pub new_event_minute: u32,
    /// The half of the day chosen in the dialog.
    pub new_event_am_pm: AmPm,
    /// The completion flag chosen in the dialog.
    pub new_event_is_done: bool,
    /// The instant last read from the dialog.
    pub date_time: Timestamp,
    /// The entries, as they were last loaded and changed since.
    pub event_entries: Vec<EventEntry>,
    /// The title shown in the details panel.
    pub details_panel_title: String,
    /// The details shown in the details panel.
    pub details_panel_details: String,
    /// The due date and time shown in the details panel.
    pub details_panel_time: String,
    /// The entry that the details panel shows and the dialog edits.
    pub active_entry: EventEntry,
    /// The title of the dialog: it tells a new entry from an edited one.
    pub new_edit_title: String,
    /// The text searched for.
    pub search_query: String,
    /// The tags field of the dialog.
    pub new_event_tags: String,
}

/// The state as contracts see it.
pub struct KrabbyDoUiView {
    pub is_show_new_edit_dialog: bool,
    pub is_show_central_panel_context_elements: bool,
    pub new_event_title: Seq<char>,
    pub new_event_details: Seq<char>,
    pub new_event_date: Option<CalendarDate>,
    pub new_event_hour: u32,
    pub new_event_minute: u32,
    pub new_event_am_pm: AmPm,
    pub new_event_is_done: bool,
    pub date_time: Timestamp,
    pub event_entries: Seq<EntryView>,
    pub details_panel_title: Seq<char>,
    pub details_panel_details: Seq<char>,
    pub details_panel_time: Seq<char>,
    pub active_entry: EntryView,
    pub new_edit_title: Seq<char>,
    pub search_query: Seq<char>,
    pub new_event_tags: Seq<char>,
}

impl View for KrabbyDoUi {
    type V = KrabbyDoUiView;

    open spec fn view(&self) -> KrabbyDoUiView {
        KrabbyDoUiView {
            is_show_new_edit_dialog: self.is_show_new_edit_dialog,
            is_show_central_panel_context_elements: self.is_show_central_panel_context_elements,
            new_event_title: self.new_event_title@,
            new_event_details: self.new_event_details@,
            new_event_date: self.new_event_date,
            new_event_hour: self.new_event_hour,
            new_event_minute: self.new_event_minute,
            new_event_am_pm: self.new_event_am_pm,
            new_event_is_done: self.new_event_is_done,
            date_time: self.date_time,
            event_entries: entry_views(self.event_entries@),
            details_panel_title: self.details_panel_title@,
            details_panel_details: self.details_panel_details@,
            details_panel_time: self.details_panel_time@,
            active_entry: self.active_entry@,
            new_edit_title: self.new_edit_title@,
            search_query: self.search_query@,
            new_event_tags: self.new_event_tags@,
        }
    }
}

/// The format of the due date and time in the details panel.
pub open spec fn panel_time_pattern() -> Seq<char> {
    "Date: %A, %B %e, %Y \tTime: %l:%M %p"@
}

/// The state of a window that was just opened over `event_entries`. No entry
/// is shown yet; an empty entry with the identifier `unique_id` stands in
/// for the active one.
pub open spec fn opened(event_entries: Seq<EntryView>, unique_id: Seq<u8>) -> KrabbyDoUiView {
    KrabbyDoUiView {
        is_show_new_edit_dialog: false,
        is_show_central_panel_context_elements: false,
        new_event_title: Seq::empty(),
        new_event_details: Seq::empty(),
        new_event_date: None,
        new_event_hour: 6,
        new_event_minute: 30,
        new_event_am_pm: AmPm::Pm,
        new_event_is_done: false,
        date_time: Timestamp { secs: 1_684_620_120, nanos: 0 },
        event_entries,
        details_panel_title: "Krabby Do"@,
        details_panel_details: Seq::empty(),
        details_panel_time: Seq::empty(),
        active_entry: EntryView {
            unique_id,
            title: Seq::empty(),
            details: Seq::empty(),
            date_time: Timestamp { secs: 946_688_461, nanos: 0 },
            is_done: false,
            tags: Seq::empty(),
        },
        new_edit_title: "New Event"@,
        search_query: Seq::empty(),
        new_event_tags: Seq::empty(),
    }
}

/// The twelve-hour clock time of an hour of the day: midnight is 12 AM, noon
/// is 12 PM.
pub open spec fn twelve_hour(hour: u32) -> (u32, AmPm) {
    if hour == 0 {
        (12u32, AmPm::Am)
    } else if hour <= 11 {
        (hour, AmPm::Am)
    } else if hour == 12 {
        (12u32, AmPm::Pm)
    } else {
        ((hour - 12) as u32, AmPm::Pm)
    }
}

/// The hour of the day of a twelve-hour clock time. An hour from 13 on is
/// taken as it is, whatever the half of the day.
pub open spec fn hour_of_clock(hour: u32, am_pm: AmPm) -> int {
    if hour < 12 && am_pm == AmPm::Pm {
        hour + 12
    } else if hour == 12 && am_pm == AmPm::Am {
        0
    } else {
        hour as int
    }
}

/// The hour field of the dialog, kept on the clock face: between 1 and 12.
pub open spec fn hour_on_face(hour: u32) -> u32 {
    if hour < 1 {
        1
    } else if hour > 12 {
        12
    } else {
        hour
    }
}

/// The minute field of the dialog, kept at 60 at most.
pub open spec fn minute_in_field(minute: u32) -> u32 {
    if minute > 60 {
        60
    } else {
        minute
    }
}

/// Whether an entry matches a search: whether the text searched for stands
/// in its title, its details or its tags, the case of letters left aside.
pub open spec fn matches_search(entry: EntryView, query: Seq<char>) -> bool {
    has_part_ignoring_case(entry.title, query) || has_part_ignoring_case(entry.details, query)
        || has_part_ignoring_case(entry.tags, query)
}

/// The entries that match a search, in their order.
pub open spec fn found_entries(entries: Seq<EntryView>, query: Seq<char>) -> Seq<EntryView> {
    entries.filter(|entry: EntryView| matches_search(entry, query))
}

/// The entries of a list that are done, or those that are not.
pub open spec fn entries_marked(entries: Seq<EntryView>, done: bool) -> Seq<EntryView> {
    entries.filter(|entry: EntryView| entry.is_done == done)
}

/// The due date and time of an instant as the details panel shows it. An
/// instant that the calendar does not reach is shown as nothing.
pub open spec fn panel_time(at: Timestamp) -> Seq<char> {
    match formatted(at.secs as int, at.nanos as int, panel_time_pattern()) {
        Some(text) => text,
        None => Seq::empty(),
    }
}

impl KrabbyDoUiView {
    /// The instant that the dialog stands for: the minute and the hour of
    /// its clock on its date, or `None` where no date is chosen or there is
    /// no such time on that date.
    pub open spec fn selected_instant(self) -> Option<Timestamp> {
        match self.new_event_date {
            Some(date) => instant_on(
                date,
                hour_of_clock(self.new_event_hour, self.new_event_am_pm) as u32,
                self.new_event_minute,
                0,
            ),
            None => None,
        }
    }

    /// The entry that the dialog stands for, under the identifier of the
    /// active entry.
    pub open spec fn dialog_entry(self) -> EntryView {
        EntryView {
            unique_id: self.active_entry.unique_id,
            title: self.new_event_title,
            details: self.new_event_details,
            date_time: self.selected_instant()->0,
            is_done: self.new_event_is_done,
            tags: self.new_event_tags,
        }
    }

    /// The state once `entry` is the active entry and the details panel
    /// shows it.
    pub open spec fn showing(self, entry: EntryView) -> KrabbyDoUiView {
        KrabbyDoUiView {
            active_entry: entry,
            is_show_central_panel_context_elements: true,
            details_panel_title: entry.title,
            details_panel_details: entry.details,
            details_panel_time: panel_time(entry.date_time),
            ..self
        }
    }

    /// The state once the dialog is filled with the active entry for
    /// editing. The hour field is only set for an hour of the day past
    /// twelve; for an earlier hour it stays as it was.
    pub open spec fn editing(self) -> KrabbyDoUiView {
        let at = self.active_entry.date_time;
        let hour = hour_of_day(at.secs as int);
        KrabbyDoUiView {
            new_edit_title: "Edit Event"@,
            is_show_new_edit_dialog: true,
            new_event_title: self.active_entry.title,
            new_event_details: self.active_entry.details,
            new_event_date: date_of(at),
            new_event_am_pm: if hour > 11 {
                AmPm::Pm
            } else {
                AmPm::Am
            },
            new_event_hour: if hour > 12 {
                (hour - 12) as u32
            } else {
                self.new_event_hour
            },
            new_event_minute: minute_of_hour(at.secs as int) as u32,
            new_event_is_done: self.active_entry.is_done,
            ..self
        }
    }

    /// The state once the dialog was confirmed. The dialog closes. For a new
    /// entry, its entry joins the end of the list. For an edited entry, its
    /// entry takes the place of the first entry of the list that equals the
    /// active one and is shown; where the list holds no such entry, list and
    /// panel stay as they are.
    pub open spec fn confirmed(self) -> KrabbyDoUiView {
        let entry = self.dialog_entry();
        let closed = KrabbyDoUiView {
            is_show_new_edit_dialog: false,
            date_time: entry.date_time,
            ..self
        };
        if self.new_edit_title == "New Event"@ {
            KrabbyDoUiView { event_entries: self.event_entries.push(entry), ..closed }
        } else if self.new_edit_title == "Edit Event"@ {
            match self.event_entries.index_of_first(self.active_entry) {
                Some(place) => (KrabbyDoUiView {
                    event_entries: self.event_entries.update(place, entry),
                    ..closed
                }).showing(entry),
                None => closed,
            }
        } else {
            closed
        }
    }

    /// The store operation that the confirmed dialog begins: the creation of
    /// its entry, or the update of its entry, or none where the dialog is
    /// neither for a new nor for an edited entry.
    pub open spec fn confirmed_begins(self) -> Option<ProgressView> {
        if self.new_edit_title == "New Event"@ {
            Some(opening(OperationView::Create(self.dialog_entry())))
        } else if self.new_edit_title == "Edit Event"@ {
            Some(opening(OperationView::Update(self.dialog_entry())))
        } else {
            None
        }
    }
}

/// The view of an exchange that may have been begun.
pub open spec fn begun_view(begun: Option<Progress>) -> Option<ProgressView> {
    match begun {
        Some(progress) => Some(progress@),
        None => None,
    }
}

/// The place of the first entry of a list that equals `target`.
pub fn position(entries: &Vec<EventEntry>, target: &EventEntry) -> (place: Option<usize>)
    ensures
        match place {
            Some(found) => found < entries.len() && entries@[found as int]@ == target@ && forall|
                i: int,
            |
                0 <= i < found ==> (#[trigger] entries@[i])@ != target@,
            None => forall|i: int| 0 <= i < entries.len() ==> (#[trigger] entries@[i])@ != target@,
        },
{
    let mut at: usize = 0;
    while at < entries.len()
        invariant
            at <= entries.len(),
            forall|i: int| 0 <= i < at ==> (#[trigger] entries@[i])@ != target@,
        decreases entries.len() - at,
    {
        if entries[at] == *target {
            return Some(at);
        }
        at += 1;
    }
    None
}

/// What `position` tells of the views of the entries: the place it gives is
/// the first at which the view of `target` stands among them.
pub proof fn lemma_position_is_first(entries: Seq<EntryView>, target: EntryView, place: Option<int>)
    requires
        match place {
            Some(found) => 0 <= found < entries.len() && entries[found] == target && forall|i: int|
                0 <= i < found ==> #[trigger] entries[i] != target,
            None => forall|i: int| 0 <= i < entries.len() ==> #[trigger] entries[i] != target,
        },
    ensures
        entries.index_of_first(target) == place,
{
    entries.index_of_first_ensures(target);
    match place {
        Some(found) => {
            assert(entries.contains(target));
        },
        None => {},
    }
}

impl KrabbyDoUi {
    /// The state of a window that was just opened over the entries that the
    /// store listed. `unique_id` is a fresh identifier for the entry that
    /// stands in for the active one.
    pub fn new(event_entries: Vec<EventEntry>, unique_id: [u8; 12]) -> (state: KrabbyDoUi)
        ensures
            state@ == opened(entry_views(event_entries@), unique_id@),
    {
        KrabbyDoUi {
            is_show_new_edit_dialog: false,
            is_show_central_panel_context_elements: false,
            new_event_title: String::new(),
            new_event_details: String::new(),
            new_event_is_done: false,
            new_event_date: None,
            new_event_hour: 6,
            new_event_minute: 30,
            new_event_am_pm: AmPm::Pm,
            search_query: String::new(),
            new_event_tags: String::new(),
            date_time: Timestamp::new(1_684_620_120, 0),
            event_entries,
            details_panel_title: "Krabby Do".to_owned(),
            details_panel_details: String::new(),
            details_panel_time: String::new(),
            active_entry: EventEntry::new(
                unique_id,
                String::new(),
                String::new(),
                Timestamp::new(946_688_461, 0),
                false,
            ),
            new_edit_title: "New Event".to_owned(),
        }
    }

    /// The menu item or the button for a new entry was used: the dialog opens
    /// for a new entry, with empty title and details, the date `today` and
    /// the time `hour`:`minute` of the day on a twelve-hour clock. The caller
    /// reads the three from the local clock.
    pub fn handle_menu_new_clicked(&mut self, today: Option<CalendarDate>, hour: u32, minute: u32)
        ensures
            final(self)@ == (KrabbyDoUiView {
                new_edit_title: "New Event"@,
                is_show_new_edit_dialog: true,
                new_event_title: Seq::empty(),
                new_event_details: Seq::empty(),
                new_event_date: today,
                new_event_am_pm: twelve_hour(hour).1,
                new_event_hour: twelve_hour(hour).0,
                new_event_minute: minute,
                new_event_is_done: false,
                ..old(self)@
            }),
    {
        self.new_edit_title = "New Event".to_owned();
        self.is_show_new_edit_dialog = true;
        self.new_event_title = String::new();
        self.new_event_details = String::new();
        self.new_event_date = today;
        self.new_event_am_pm = AmPm::Am;
        let mut hour = hour;
        if hour > 11 {
            self.new_event_am_pm = AmPm::Pm;
        }
        if hour > 12 {
            hour -= 12;
        } else if hour == 0 {
            hour = 12;
            self.new_event_am_pm = AmPm::Am;
        }
        self.new_event_hour = hour;
        self.new_event_minute = minute;
        self.new_event_is_done = false;
    }

    /// The Cancel button of the dialog was used: the dialog closes and
    /// nothing else changes.
    pub fn handle_new_edit_cancel_button_clicked(&mut self)
        ensures
            final(self)@ == (KrabbyDoUiView { is_show_new_edit_dialog: false, ..old(self)@ }),
    {
        self.is_show_new_edit_dialog = false;
    }

    /// The date chosen in the dialog.
    pub fn get_selected_date(&mut self) -> (date: Option<CalendarDate>)
        ensures
            date == old(self).new_event_date,
            final(self)@ == old(self)@,
    {
        self.new_event_date
    }

    /// The hour of the day that the dialog shows on its twelve-hour clock.
    pub fn selected_hour(&self) -> (hour: u32)
        ensures
            hour == hour_of_clock(self.new_event_hour, self.new_event_am_pm),
    {
        let mut hour = self.new_event_hour;
        if hour < 12 && self.new_event_am_pm == AmPm::Pm {
            hour += 12;
        } else if hour == 12 && self.new_event_am_pm == AmPm::Am {
            hour -= 12;
        }
        hour
    }

    /// The instant that the dialog stands for. It becomes the instant last
    /// read from the dialog.
    pub fn get_selected_date_time(&mut self) -> (at: Timestamp)
        requires
            old(self)@.selected_instant() is Some,
        ensures
            Some(at) == old(self)@.selected_instant(),
            final(self)@ == (KrabbyDoUiView { date_time: at, ..old(self)@ }),
    {
        let hour = self.selected_hour();
        let date = self.new_event_date.unwrap();
        let at = utc_from_civil(date, hour, self.new_event_minute, 0).unwrap();
        self.date_time = at;
        at
    }

    /// The instant that the dialog stands for, or `None` where no date is
    /// chosen or there is no such time on that date; the state then stays as
    /// it is.
    pub fn try_get_selected_date_time(&mut self) -> (at: Option<Timestamp>)
        ensures
            at == old(self)@.selected_instant(),
            final(self)@ == match at {
                Some(read) => KrabbyDoUiView { date_time: read, ..old(self)@ },
                None => old(self)@,
            },
    {
        match self.new_event_date {
            Some(date) => {
                let hour = self.selected_hour();
                match utc_from_civil(date, hour, self.new_event_minute, 0) {
                    Some(_) => Some(self.get_selected_date_time()),
                    None => None,
                }
            },
            None => None,
        }
    }

    /// An entry of the list was chosen: it becomes the active entry and the
    /// details panel shows it.
    pub fn handle_event_list_item_clicked(&mut self, entry: &EventEntry)
        ensures
            final(self)@ == old(self)@.showing(entry@),
    {
        self.active_entry = entry.clone();
        self.is_show_central_panel_context_elements = true;
        self.details_panel_title = entry.title.clone();
        self.details_panel_details = entry.details.clone();
        self.details_panel_time = match write_formatted(
            entry.date_time,
            "Date: %A, %B %e, %Y \tTime: %l:%M %p",
        ) {
            Some(text) => text,
            None => String::new(),
        };
    }

    /// The Edit button of the details panel was used: the dialog opens,
    /// filled with the active entry.
    pub fn handle_edit_event_button_clicked(&mut self)
        ensures
            final(self)@ == old(self)@.editing(),
    {
        self.new_edit_title = "Edit Event".to_owned();
        self.is_show_new_edit_dialog = true;
        self.new_event_title = self.active_entry.title.clone();
        self.new_event_details = self.active_entry.details.clone();
        let date_time = self.active_entry.date_time;
        self.new_event_date = utc_calendar_date(date_time);
        let hour = date_time.hour();
        if hour > 11 {
            self.new_event_am_pm = AmPm::Pm;
        } else {
            self.new_event_am_pm = AmPm::Am;
        }
        if hour > 12 {
            self.new_event_hour = hour - 12;
        }
        self.new_event_minute = date_time.minute();
        self.new_event_is_done = self.active_entry.is_done;
    }

    /// The Edit button of an entry of the list was used: the entry becomes
    /// the active one and the dialog opens, filled with it.
    pub fn handle_event_list_item_edit_button_clicked(&mut self, entry: &EventEntry)
        ensures
            final(self)@ == (KrabbyDoUiView { active_entry: entry@, ..old(self)@ }).editing(),
    {
        self.active_entry = entry.clone();
        self.handle_edit_event_button_clicked();
    }

    /// The Delete button of an entry of the list was used: the first entry
    /// of the list that equals it leaves the list, and the removal of the
    /// entry from the store is begun, whether the list held it or not. The
    /// result is the store operation that was begun; the caller carries it
    /// out.
    pub fn handle_event_list_item_delete_button_clicked(&mut self, entry: &EventEntry) -> (begun:
        Progress)
        ensures
            final(self)@ == (KrabbyDoUiView {
                event_entries: old(self)@.event_entries.remove_value(entry@),
                ..old(self)@
            }),
            begun@ == opening(OperationView::Delete(entry@)),
    {
        let place = position(&self.event_entries, entry);
        proof {
            lemma_position_is_first(
                entry_views(self.event_entries@),
                entry@,
                match place {
                    Some(found) => Some(found as int),
                    None => None,
                },
            );
        }
        match place {
            Some(index) => {
                let ghost before = self.event_entries@;
                self.event_entries.remove(index);
                assert(entry_views(self.event_entries@) =~= entry_views(before).remove(index as int));
            },
            None => {},
        }
        entry.delete_event()
    }

    /// The OK button of the dialog was used: the dialog closes and its entry
    /// joins the list or replaces the edited one. The result is the store
    /// operation that was begun for it; the caller carries it out.
    pub fn handle_new_edit_ok_button_clicked(&mut self) -> (begun: Option<Progress>)
        requires
            old(self)@.selected_instant() is Some,
        ensures
            final(self)@ == old(self)@.confirmed(),
            begun_view(begun) == old(self)@.confirmed_begins(),
    {
        self.is_show_new_edit_dialog = false;
        let date_time = self.get_selected_date_time();
        let new_entry = EventEntry {
            unique_id: self.active_entry.unique_id,
            title: self.new_event_title.clone(),
            details: self.new_event_details.clone(),
            date_time,
            is_done: self.new_event_is_done,
            tags: self.new_event_tags.clone(),
        };
        if self.new_edit_title == "New Event".to_owned() {
            let begun = new_entry.add_event();
            let ghost before = self.event_entries@;
            self.event_entries.push(new_entry);
            assert(entry_views(self.event_entries@) =~= entry_views(before).push(new_entry@));
            Some(begun)
        } else if self.new_edit_title == "Edit Event".to_owned() {
            let begun = new_entry.update_task();
            let place = position(&self.event_entries, &self.active_entry);
            proof {
                lemma_position_is_first(
                    entry_views(self.event_entries@),
                    self.active_entry@,
                    match place {
                        Some(found) => Some(found as int),
                        None => None,
                    },
                );
            }
            match place {
                Some(index) => {
                    let ghost before = self.event_entries@;
                    self.event_entries.set(index, new_entry.clone());
                    assert(entry_views(self.event_entries@) =~= entry_views(before).update(
                        index as int,
                        new_entry@,
                    ));
                    self.handle_event_list_item_clicked(&new_entry);
                },
                None => {},
            }
            Some(begun)
        } else {
            None
        }
    }

    /// The OK button of the dialog was used. Where the dialog stands for an
    /// instant, this is `handle_new_edit_ok_button_clicked` and the result
    /// holds what it began; where it stands for none, nothing changes and
    /// the result is `None`.
    pub fn try_handle_new_edit_ok_button_clicked(&mut self) -> (begun: Option<Option<Progress>>)
        ensures
            match begun {
                Some(inner) => old(self)@.selected_instant() is Some && final(self)@ == old(
                    self,
                )@.confirmed() && begun_view(inner) == old(self)@.confirmed_begins(),
                None => old(self)@.selected_instant() is None && final(self)@ == old(self)@,
            },
    {
        match self.new_event_date {
            Some(date) => {
                let hour = self.selected_hour();
                match utc_from_civil(date, hour, self.new_event_minute, 0) {
                    Some(_) => Some(self.handle_new_edit_ok_button_clicked()),
                    None => None,
                }
            },
            None => None,
        }
    }

    /// The dialog is about to be drawn: its hour is kept between 1 and 12
    /// and its minute at 60 at most.
    pub fn setup_new_event_dialog(&mut self)
        ensures
            final(self)@ == (KrabbyDoUiView {
                new_event_hour: hour_on_face(old(self).new_event_hour),
                new_event_minute: minute_in_field(old(self).new_event_minute),
                ..old(self)@
            }),
    {
        if self.new_event_hour < 1 {
            self.new_event_hour = 1;
        } else if self.new_event_hour > 12 {
            self.new_event_hour = 12;
        }
        if self.new_event_minute > 60 {
            self.new_event_minute = 60;
        }
    }

    /// The entries that match the search, in the order of the list. Every
    /// entry matches an empty search.
    pub fn get_events(&self) -> (found: Vec<EventEntry>)
        ensures
            entry_views(found@) == found_entries(self@.event_entries, self@.search_query),
    {
        let query = to_lowercase(self.search_query.as_str());
        let ghost matches = |entry: EntryView| matches_search(entry, self@.search_query);
        let mut found: Vec<EventEntry> = Vec::new();
        let mut at: usize = 0;
        proof {
            reveal(Seq::filter);
            assert(entry_views(self.event_entries@).take(0) =~= Seq::<EntryView>::empty());
            assert(entry_views(found@) =~= Seq::<EntryView>::empty());
        }
        while at < self.event_entries.len()
            invariant
                at <= self.event_entries.len(),
                query@ == lowercased(self.search_query@),
                matches == |entry: EntryView| matches_search(entry, self@.search_query),
                entry_views(found@) == entry_views(self.event_entries@).take(at as int).filter(
                    matches,
                ),
            decreases self.event_entries.len() - at,
        {
            let ghost before = entry_views(found@);
            let ghost seen = entry_views(self.event_entries@).take(at as int);
            let entry = &self.event_entries[at];
            proof {
                assert(entry_views(self.event_entries@).take(at as int + 1) =~= seen.push(entry@));
                seen.lemma_filter_push(entry@, matches);
            }
            if holds_lowercase(entry.title.as_str(), query.as_str()) || holds_lowercase(
                entry.details.as_str(),
                query.as_str(),
            ) || holds_lowercase(entry.tags.as_str(), query.as_str()) {
                found.push(entry.clone());
                assert(entry_views(found@) =~= before.push(entry@));
            }
            at += 1;
        }
        assert(entry_views(self.event_entries@).take(self.event_entries@.len() as int)
            =~= entry_views(self.event_entries@));
        found
    }

    /// The entries to list in one of the two panels: of those that match the
    /// search, the ones that are done where `is_show_events_marked_done`,
    /// and the ones that are not otherwise.
    pub fn list_events(&self, is_show_events_marked_done: bool) -> (listed: Vec<EventEntry>)
        ensures
            entry_views(listed@) == entries_marked(
                found_entries(self@.event_entries, self@.search_query),
                is_show_events_marked_done,
            ),
    {
        let found = self.get_events();
        let ghost marked = |entry: EntryView| entry.is_done == is_show_events_marked_done;
        let mut listed: Vec<EventEntry> = Vec::new();
        let mut at: usize = 0;
        proof {
            reveal(Seq::filter);
            assert(entry_views(found@).take(0) =~= Seq::<EntryView>::empty());
            assert(entry_views(listed@) =~= Seq::<EntryView>::empty());
        }
        while at < found.len()
            invariant
                at <= found.len(),
                marked == |entry: EntryView| entry.is_done == is_show_events_marked_done,
                entry_views(listed@) == entry_views(found@).take(at as int).filter(marked),
            decreases found.len() - at,
        {
            let ghost before = entry_views(listed@);
            let ghost seen = entry_views(found@).take(at as int);
            proof {
                assert(entry_views(found@).take(at as int + 1) =~= seen.push(found@[at as int]@));
                seen.lemma_filter_push(found@[at as int]@, marked);
            }
            if found[at].is_done == is_show_events_marked_done {
                listed.push(found[at].clone());
                assert(entry_views(listed@) =~= before.push(found@[at as int]@));
            }
            at += 1;
        }
        assert(entry_views(found@).take(found@.len() as int) =~= entry_views(found@));
        listed
    }
}

/// A time of the day put on the twelve-hour clock and read from it again is
/// the same time.
pub proof fn lemma_clock_reads_back(hour: u32)
    requires
        hour < 24,
    ensures
        hour_of_clock(twelve_hour(hour).0, twelve_hour(hour).1) == hour,
        1 <= twelve_hour(hour).0 <= 12,
{
}

} // verus!
