//! The store operations as exchanges with a document database.
//!
//! An operation never touches the network. It is an [`Exchange`]: it tells
//! its caller what to do next (an [`Action`]), the caller does it and
//! reports what happened (an [`Event`]), and the exchange either asks for
//! the next action or finishes with an [`Outcome`]. Every operation opens a
//! session of its own, sends one request and finishes on the reply.

use crate::codec::{
    decoded, decoded_all, due_entries, due_filter, due_filter_fields, entries_due, entry_fields,
    fields_of, id_filter, id_filter_fields, lemma_readable_document, optional_fields,
    required_fields_readable, set_fields,
};
use crate::document::{doc_fields, Fields};
use crate::entry::{entry_views, EntryView, EventEntry};
use crate::error::StoreError;
use crate::instant::{canonical_text, read_clock, Timestamp};
use bson::Document;
use vstd::prelude::*;

verus! {

/// Where the documents are kept: the address of the database, and the
/// database and the collection in it.
#[derive(Debug)]
pub struct Endpoint {
    pub address: String,
    pub database: String,
    pub collection: String,
}

/// An endpoint as contracts see it.
pub struct EndpointView {
    pub address: Seq<char>,
    pub database: Seq<char>,
    pub collection: Seq<char>,
}

impl View for Endpoint {
    type V = EndpointView;

    open spec fn view(&self) -> EndpointView {
        EndpointView {
            address: self.address@,
            database: self.database@,
            collection: self.collection@,
        }
    }
}

/// The one endpoint that every operation uses.
pub open spec fn fixed_endpoint() -> EndpointView {
    EndpointView {
        address: "mongodb://localhost:27017"@,
        database: "events"@,
        collection: "todos"@,
    }
}

/// The endpoint at which a session is opened: the database on the local
/// host, at its standard port. It cannot be configured.
pub fn create_mongodb_client() -> (endpoint: Endpoint)
    ensures
        endpoint@ == fixed_endpoint(),
{
    Endpoint {
        address: "mongodb://localhost:27017".to_owned(),
        database: "events".to_owned(),
        collection: "todos".to_owned(),
    }
}

/// What a caller asks of the store.
#[derive(Debug)]
pub enum Operation {
    /// Store a new entry; the store assigns its identifier.
    Create(EventEntry),
    /// Replace the fields of the entry stored under the identifier.
    Update(EventEntry),
    /// Remove the entry stored under the identifier.
    Delete(EventEntry),
    /// List every stored entry.
    ListAll,
    /// List the entries due on the UTC day that holds the given instant.
    ListDueToday(Timestamp),
}

/// An operation as contracts see it.
pub enum OperationView {
    Create(EntryView),
    Update(EntryView),
    Delete(EntryView),
    ListAll,
    ListDueToday(Timestamp),
}

impl View for Operation {
    type V = OperationView;

    open spec fn view(&self) -> OperationView {
        match *self {
            Operation::Create(entry) => OperationView::Create(entry@),
            Operation::Update(entry) => OperationView::Update(entry@),
            Operation::Delete(entry) => OperationView::Delete(entry@),
            Operation::ListAll => OperationView::ListAll,
            Operation::ListDueToday(now) => OperationView::ListDueToday(now),
        }
    }
}

/// How far an exchange has come.
#[derive(Clone, Copy, Debug, PartialEq, Eq, Structural)]
pub enum Stage {
    /// The session is being opened.
    Connecting,
    /// The request was sent and the reply is awaited.
    Awaiting,
}

/// One operation under way.
#[derive(Debug)]
pub struct Exchange {
    pub operation: Operation,
    pub stage: Stage,
}

/// An exchange as contracts see it.
pub struct ExchangeView {
    pub operation: OperationView,
    pub stage: Stage,
}

impl View for Exchange {
    type V = ExchangeView;

    open spec fn view(&self) -> ExchangeView {
        ExchangeView { operation: self.operation@, stage: self.stage }
    }
}

/// What the caller is to do for an exchange.
#[derive(Debug)]
pub enum Action {
    /// Open a session at the endpoint.
    Connect(Endpoint),
    /// Insert the document; the store assigns its identifier.
    Insert(Document),
    /// In the first document that the filter selects, apply the update.
    Update(Document, Document),
    /// Remove the first document that the filter selects.
    Delete(Document),
    /// Fetch the documents that the filter selects, or all without one.
    Find(Option<Document>),
}

/// An action as contracts see it.
pub enum ActionView {
    Connect(EndpointView),
    Insert(Fields),
    Update(Fields, Fields),
    Delete(Fields),
    Find(Option<Fields>),
}

impl View for Action {
    type V = ActionView;

    open spec fn view(&self) -> ActionView {
        match *self {
            Action::Connect(endpoint) => ActionView::Connect(endpoint@),
            Action::Insert(document) => ActionView::Insert(doc_fields(document)),
            Action::Update(filter, update) => ActionView::Update(
                doc_fields(filter),
                doc_fields(update),
            ),
            Action::Delete(filter) => ActionView::Delete(doc_fields(filter)),
            Action::Find(filter) => ActionView::Find(optional_fields(filter)),
        }
    }
}

/// What happened when the caller did what an exchange asked for.
#[derive(Debug)]
pub enum Event {
    /// The session is open.
    Connected,
    /// The endpoint could not be reached, or the session was lost.
    Unreachable,
    /// The store took the write; `affected` documents matched it.
    Acknowledged { affected: u64 },
    /// The store refused the request.
    Rejected,
    /// The store sent these documents.
    Documents(Vec<Document>),
}

/// An event as contracts see it.
pub enum EventView {
    Connected,
    Unreachable,
    Acknowledged { affected: nat },
    Rejected,
    Documents(Seq<Fields>),
}

impl View for Event {
    type V = EventView;

    open spec fn view(&self) -> EventView {
        match *self {
            Event::Connected => EventView::Connected,
            Event::Unreachable => EventView::Unreachable,
            Event::Acknowledged { affected } => EventView::Acknowledged { affected: affected as nat },
            Event::Rejected => EventView::Rejected,
            Event::Documents(documents) => EventView::Documents(fields_of(documents@)),
        }
    }
}

/// How an operation ended.
#[derive(Debug)]
pub enum Outcome {
    /// The write was taken. It is also taken where no stored document had the
    /// identifier: an update or a delete of a missing entry changes nothing
    /// and succeeds.
    Done,
    /// The entries that were asked for, in the order of the store.
    Listed(Vec<EventEntry>),
    /// The operation failed.
    Failed(StoreError),
}

/// An outcome as contracts see it.
pub enum OutcomeView {
    Done,
    Listed(Seq<EntryView>),
    Failed(StoreError),
}

impl View for Outcome {
    type V = OutcomeView;

    open spec fn view(&self) -> OutcomeView {
        match *self {
            Outcome::Done => OutcomeView::Done,
            Outcome::Listed(entries) => OutcomeView::Listed(entry_views(entries@)),
            Outcome::Failed(error) => OutcomeView::Failed(error),
        }
    }
}

/// Where an exchange stands after a step.
#[derive(Debug)]
pub enum Progress {
    /// The caller is to perform the action and report the event to the
    /// exchange.
    Pending(Exchange, Action),
    /// The operation is over.
    Finished(Outcome),
}

/// Progress as contracts see it.
pub enum ProgressView {
    Pending(ExchangeView, ActionView),
    Finished(OutcomeView),
}

impl View for Progress {
    type V = ProgressView;

    open spec fn view(&self) -> ProgressView {
        match *self {
            Progress::Pending(exchange, action) => ProgressView::Pending(exchange@, action@),
            Progress::Finished(outcome) => ProgressView::Finished(outcome@),
        }
    }
}

/// How an exchange begins: with the opening of a session at the fixed
/// endpoint.
pub open spec fn opening(operation: OperationView) -> ProgressView {
    ProgressView::Pending(
        ExchangeView { operation, stage: Stage::Connecting },
        ActionView::Connect(fixed_endpoint()),
    )
}

/// The one request of an operation, or `None` where the entry to be written
/// has a due instant without canonical text.
pub open spec fn request(operation: OperationView) -> Option<ActionView> {
    match operation {
        OperationView::Create(entry) => match canonical_text(entry.date_time) {
            Some(stamp) => Some(ActionView::Insert(entry_fields(entry, stamp))),
            None => None,
        },
        OperationView::Update(entry) => match canonical_text(entry.date_time) {
            Some(stamp) => Some(
                ActionView::Update(
                    id_filter_fields(entry.unique_id),
                    set_fields(entry_fields(entry, stamp)),
                ),
            ),
            None => None,
        },
        OperationView::Delete(entry) => Some(ActionView::Delete(id_filter_fields(entry.unique_id))),
        OperationView::ListAll => Some(ActionView::Find(None)),
        OperationView::ListDueToday(now) => Some(ActionView::Find(due_filter_fields(now))),
    }
}

/// Whether an operation writes.
pub open spec fn writes(operation: OperationView) -> bool {
    operation is Create || operation is Update || operation is Delete
}

/// How an operation ends on the reply to its request.
///
/// A write is done once the store has taken it, however many documents it
/// matched; it fails with `ConnectionError` where the session was lost and
/// with `WriteError` on any other reply. A listing reads every document that
/// came back and fails as a whole with `DeserializationError` if one of them
/// stands for no entry; the listing of the day keeps the entries due on it.
/// Any other reply to a listing is a `ConnectionError`.
pub open spec fn conclusion(operation: OperationView, reply: EventView) -> OutcomeView {
    if writes(operation) {
        match reply {
            EventView::Acknowledged { .. } => OutcomeView::Done,
            EventView::Unreachable => OutcomeView::Failed(StoreError::ConnectionError),
            _ => OutcomeView::Failed(StoreError::WriteError),
        }
    } else {
        match reply {
            EventView::Documents(documents) => match decoded_all(documents) {
                Some(entries) => match operation {
                    OperationView::ListDueToday(now) => OutcomeView::Listed(
                        due_entries(entries, now),
                    ),
                    _ => OutcomeView::Listed(entries),
                },
                None => OutcomeView::Failed(StoreError::DeserializationError),
            },
            _ => OutcomeView::Failed(StoreError::ConnectionError),
        }
    }
}

/// The step of an exchange on an event.
///
/// While the session is being opened, `Connected` sends the request of the
/// operation, or fails with `WriteError` where it has none, and anything
/// else fails with `ConnectionError` without a request being sent. While
/// the reply is awaited, the event is the reply and ends the operation.
pub open spec fn step(exchange: ExchangeView, event: EventView) -> ProgressView {
    match exchange.stage {
        Stage::Connecting => match event {
            EventView::Connected => match request(exchange.operation) {
                Some(action) => ProgressView::Pending(
                    ExchangeView { operation: exchange.operation, stage: Stage::Awaiting },
                    action,
                ),
                None => ProgressView::Finished(OutcomeView::Failed(StoreError::WriteError)),
            },
            _ => ProgressView::Finished(OutcomeView::Failed(StoreError::ConnectionError)),
        },
        Stage::Awaiting => ProgressView::Finished(conclusion(exchange.operation, event)),
    }
}

/// Every operation is over after two events at most, and at most one request
/// is sent for it: the first event either ends it or leads to its one
/// request, and the reply to that request ends it.
pub proof fn lemma_one_request_per_operation(
    operation: OperationView,
    first: EventView,
    reply: EventView,
)
    ensures
        opening(operation) matches ProgressView::Pending(connecting, ActionView::Connect(endpoint))
            && endpoint == fixed_endpoint() && match step(connecting, first) {
            ProgressView::Pending(awaiting, action) => first is Connected && request(operation)
                == Some(action) && !(action is Connect) && step(awaiting, reply)
                == ProgressView::Finished(conclusion(operation, reply)),
            ProgressView::Finished(outcome) => outcome is Failed,
        },
{
}

/// A write that the store has taken is done, however many documents it
/// matched: an update or a delete that matched none is no failure.
pub proof fn lemma_unmatched_write_is_done(operation: OperationView, affected: nat)
    requires
        writes(operation),
    ensures
        conclusion(operation, EventView::Acknowledged { affected }) == OutcomeView::Done,
{
}

/// A listing of the documents that the store sent fails for one reason
/// alone: a document whose five required fields cannot all be read. Tags
/// that are missing or of another kind than a string fail nothing.
pub proof fn lemma_listing_fails_on_required_fields_only(documents: Seq<Fields>, now: Timestamp)
    ensures
        conclusion(OperationView::ListAll, EventView::Documents(documents)) is Listed <==> forall|
            i: int,
        |
            0 <= i < documents.len() ==> required_fields_readable(#[trigger] documents[i]),
        conclusion(OperationView::ListDueToday(now), EventView::Documents(documents)) is Listed
            <==> forall|i: int|
            0 <= i < documents.len() ==> required_fields_readable(#[trigger] documents[i]),
        !(conclusion(OperationView::ListAll, EventView::Documents(documents)) is Listed)
            ==> conclusion(OperationView::ListAll, EventView::Documents(documents))
            == OutcomeView::Failed(StoreError::DeserializationError),
{
    assert forall|i: int| 0 <= i < documents.len() implies (decoded(#[trigger] documents[i]) is Some
        <==> required_fields_readable(documents[i])) by {
        lemma_readable_document(documents[i]);
    }
    if decoded_all(documents) is Some {
        assert forall|i: int| 0 <= i < documents.len() implies required_fields_readable(
            #[trigger] documents[i],
        ) by {
            assert(decoded(documents[i]) is Some);
        }
    }
}

/// A listing fails as a whole or not at all: where one document of the reply
/// stands for no entry the outcome is a `DeserializationError`, and
/// otherwise the listing of all entries holds one entry for each document of
/// the reply, in the order of the reply.
pub proof fn lemma_listing_is_whole(documents: Seq<Fields>)
    ensures
        match conclusion(OperationView::ListAll, EventView::Documents(documents)) {
            OutcomeView::Listed(entries) => entries.len() == documents.len() && forall|i: int|
                0 <= i < documents.len() ==> decoded(#[trigger] documents[i]) == Some(entries[i]),
            OutcomeView::Failed(error) => error == StoreError::DeserializationError && exists|
                i: int,
            |
                0 <= i < documents.len() && decoded(#[trigger] documents[i]) is None,
            OutcomeView::Done => false,
        },
{
}

/// A write never ends with a listing and a listing never ends as a write
/// does.
pub proof fn lemma_outcome_fits_operation(operation: OperationView, reply: EventView)
    ensures
        writes(operation) ==> !(conclusion(operation, reply) is Listed),
        !writes(operation) ==> !(conclusion(operation, reply) is Done),
{
}

/// The result of a write that ended with `outcome`. The outcome of a write
/// is no listing; one that is handed in all the same counts as a
/// `WriteError`.
pub open spec fn write_result(outcome: OutcomeView) -> Result<(), StoreError> {
    match outcome {
        OutcomeView::Done => Ok(()),
        OutcomeView::Failed(error) => Err(error),
        OutcomeView::Listed(_) => Err(StoreError::WriteError),
    }
}

/// The result of a listing that ended with `outcome`. The outcome of a
/// listing is never `Done`; one that is handed in all the same counts as a
/// `ConnectionError`.
pub open spec fn list_result(outcome: OutcomeView) -> Result<Seq<EntryView>, StoreError> {
    match outcome {
        OutcomeView::Listed(entries) => Ok(entries),
        OutcomeView::Failed(error) => Err(error),
        OutcomeView::Done => Err(StoreError::ConnectionError),
    }
}

/// The view of the result of a listing.
pub open spec fn listed_view(result: Result<Vec<EventEntry>, StoreError>) -> Result<
    Seq<EntryView>,
    StoreError,
> {
    match result {
        Ok(entries) => Ok(entry_views(entries@)),
        Err(error) => Err(error),
    }
}

impl Outcome {
    /// The result of the write that ended with this outcome.
    pub fn written(self) -> (result: Result<(), StoreError>)
        ensures
            result == write_result(self@),
    {
        match self {
            Outcome::Done => Ok(()),
            Outcome::Failed(error) => Err(error),
            Outcome::Listed(_) => Err(StoreError::WriteError),
        }
    }

    /// The result of the listing that ended with this outcome.
    pub fn listed(self) -> (result: Result<Vec<EventEntry>, StoreError>)
        ensures
            listed_view(result) == list_result(self@),
    {
        match self {
            Outcome::Listed(entries) => Ok(entries),
            Outcome::Failed(error) => Err(error),
            Outcome::Done => Err(StoreError::ConnectionError),
        }
    }
}

impl Operation {
    /// Whether this operation writes.
    pub fn is_write(&self) -> (write: bool)
        ensures
            write == writes(self@),
    {
        match self {
            Operation::Create(_) => true,
            Operation::Update(_) => true,
            Operation::Delete(_) => true,
            Operation::ListAll => false,
            Operation::ListDueToday(_) => false,
        }
    }

    /// The one request of this operation, or `None` where the entry to be
    /// written has a due instant without canonical text.
    pub fn to_request(&self) -> (action: Option<Action>)
        ensures
            match action {
                Some(found) => request(self@) == Some(found@),
                None => request(self@) is None,
            },
    {
        match self {
            Operation::Create(entry) => match entry.to_document() {
                Some(document) => Some(Action::Insert(document)),
                None => None,
            },
            Operation::Update(entry) => match entry.to_update() {
                Some(update) => Some(Action::Update(id_filter(entry.unique_id), update)),
                None => None,
            },
            Operation::Delete(entry) => Some(Action::Delete(id_filter(entry.unique_id))),
            Operation::ListAll => Some(Action::Find(None)),
            Operation::ListDueToday(now) => Some(Action::Find(due_filter(now))),
        }
    }

    /// How this operation ends on the reply to its request.
    pub fn conclude(&self, reply: Event) -> (outcome: Outcome)
        ensures
            outcome@ == conclusion(self@, reply@),
    {
        if self.is_write() {
            match reply {
                Event::Acknowledged { affected: _ } => Outcome::Done,
                Event::Unreachable => Outcome::Failed(StoreError::ConnectionError),
                _ => Outcome::Failed(StoreError::WriteError),
            }
        } else {
            match reply {
                Event::Documents(documents) => match EventEntry::from_documents(&documents) {
                    Ok(entries) => match self {
                        Operation::ListDueToday(now) => Outcome::Listed(entries_due(&entries, now)),
                        _ => Outcome::Listed(entries),
                    },
                    Err(error) => Outcome::Failed(error),
                },
                _ => Outcome::Failed(StoreError::ConnectionError),
            }
        }
    }
}

impl Exchange {
    /// Begins an operation: the caller is to open a session at the fixed
    /// endpoint.
    pub fn begin(operation: Operation) -> (progress: Progress)
        ensures
            progress@ == opening(operation@),
    {
        Progress::Pending(
            Exchange { operation, stage: Stage::Connecting },
            Action::Connect(create_mongodb_client()),
        )
    }

    /// Takes the event that the last action led to and says how the exchange
    /// goes on.
    pub fn advance(self, event: Event) -> (progress: Progress)
        ensures
            progress@ == step(self@, event@),
    {
        match self.stage {
            Stage::Connecting => match event {
                Event::Connected => match self.operation.to_request() {
                    Some(action) => Progress::Pending(
                        Exchange { operation: self.operation, stage: Stage::Awaiting },
                        action,
                    ),
                    None => Progress::Finished(Outcome::Failed(StoreError::WriteError)),
                },
                _ => Progress::Finished(Outcome::Failed(StoreError::ConnectionError)),
            },
            Stage::Awaiting => Progress::Finished(self.operation.conclude(event)),
        }
    }
}

impl EventEntry {
    /// Begins the creation of this entry in the store. The identifier of the
    /// entry is not sent: the store assigns one.
    pub fn add_event(&self) -> (progress: Progress)
        ensures
            progress@ == opening(OperationView::Create(self@)),
    {
        Exchange::begin(Operation::Create(self.clone()))
    }

    /// Begins the replacement of the stored fields of this entry: every
    /// field but the identifier, in the document stored under the
    /// identifier.
    pub fn update_task(&self) -> (progress: Progress)
        ensures
            progress@ == opening(OperationView::Update(self@)),
    {
        Exchange::begin(Operation::Update(self.clone()))
    }

    /// Begins the removal of the document stored under the identifier of
    /// this entry.
    pub fn delete_event(&self) -> (progress: Progress)
        ensures
            progress@ == opening(OperationView::Delete(self@)),
    {
        Exchange::begin(Operation::Delete(self.clone()))
    }

    /// Begins the listing of every stored entry.
    pub fn get_all_tasks() -> (progress: Progress)
        ensures
            progress@ == opening(OperationView::ListAll),
    {
        Exchange::begin(Operation::ListAll)
    }

    /// Begins the listing of the entries due on the UTC day that holds
    /// `now`.
    pub fn get_events_due_on_day_of(now: Timestamp) -> (progress: Progress)
        ensures
            progress@ == opening(OperationView::ListDueToday(now)),
    {
        Exchange::begin(Operation::ListDueToday(now))
    }

    /// Begins the listing of the entries due today: on the UTC day that
    /// holds the instant at which this function reads the clock.
    pub fn get_today_events() -> (progress: Progress)
        ensures
            exists|now: Timestamp| progress@ == opening(OperationView::ListDueToday(now)),
    {
        let now = read_clock();
        let progress = EventEntry::get_events_due_on_day_of(now);
        assert(progress@ == opening(OperationView::ListDueToday(now)));
        progress
    }
}

} // verus!
