//! File writes and deletes requested by proxies.
//!
//! A write or delete is started on the daemon's file model and completes
//! later, through a file event. The daemon remembers, per file, which request
//! and which connection the operation came from, so that the completion can
//! be answered to the right client, exactly once.

use std::collections::HashMap;
use vstd::prelude::*;

use crate::remote_server::ConnectionId;

verus! {

broadcast use vstd::std_specs::hash::group_hash_axioms;

/// The identifier the file model gives a registered path.
pub type FileId = u64;

/// What a pending file operation does.
#[derive(Clone, Copy, Debug, PartialEq, Eq, Structural)]
pub enum FileOpKind {
    Write,
    Delete,
}

/// A file operation in flight: the request it answers and the connection the
/// request came from.
#[derive(Debug)]
pub struct PendingFileOp {
    pub request_id: String,
    pub conn_id: ConnectionId,
    pub kind: FileOpKind,
}

/// The file operations in flight, by file.
pub struct PendingFileOps {
    ops: HashMap<FileId, PendingFileOp>,
}

/// An event of the file model about one file.
#[derive(Debug)]
pub enum FileEvent {
    /// The file was written (or deleted).
    Saved,
    /// Writing (or deleting) the file failed.
    FailedToSave { error: String },
    Loaded,
    FailedToLoad,
    Updated,
}

/// How a file operation ended.
#[derive(Debug)]
pub enum FileOpResult {
    Success,
    Error { message: String },
}

/// The response to a write (`kind` is `Write`) or delete request.
#[derive(Debug)]
pub struct FileOpResponse {
    pub kind: FileOpKind,
    pub result: FileOpResult,
}

/// A response and where it goes.
#[derive(Debug)]
pub struct FileOpDelivery {
    pub conn_id: ConnectionId,
    pub request_id: String,
    pub response: FileOpResponse,
}

/// Whether `event` ends a file operation, and how: `None` when it does not,
/// `Some(None)` on success, `Some(Some(e))` on a failure described by `e`.
pub open spec fn settles(event: FileEvent) -> Option<Option<Seq<char>>> {
    match event {
        FileEvent::Saved => Some(None),
        FileEvent::FailedToSave { error } => Some(Some(error@)),
        _ => None,
    }
}

/// The error message of a result, if it is one.
pub open spec fn result_error(r: FileOpResult) -> Option<Seq<char>> {
    match r {
        FileOpResult::Success => None,
        FileOpResult::Error { message } => Some(message@),
    }
}

/// The message answered when an operation could not even be started.
pub open spec fn initiate_failure_message(kind: FileOpKind, error: Seq<char>) -> Seq<char> {
    match kind {
        FileOpKind::Write => "Failed to initiate write: "@ + error,
        FileOpKind::Delete => "Failed to initiate delete: "@ + error,
    }
}

/// The pending operations after `event` about `file_id`, and the delivery it
/// causes: an event that ends a tracked operation answers it and forgets it;
/// any other event changes nothing.
pub open spec fn event_step(ops: Map<FileId, PendingFileOp>, file_id: FileId, event: FileEvent) -> (
    Map<FileId, PendingFileOp>,
    Option<(ConnectionId, Seq<char>, FileOpKind, Option<Seq<char>>)>,
) {
    if ops.contains_key(file_id) && settles(event) is Some {
        let op = ops[file_id];
        (ops.remove(file_id), Some((op.conn_id, op.request_id@, op.kind, settles(event)->0)))
    } else {
        (ops, None)
    }
}

/// A delivery seen as (connection, request, kind, error).
pub open spec fn delivery_view(d: FileOpDelivery) -> (
    ConnectionId,
    Seq<char>,
    FileOpKind,
    Option<Seq<char>>,
) {
    (d.conn_id, d.request_id@, d.response.kind, result_error(d.response.result))
}

impl View for PendingFileOps {
    type V = Map<FileId, PendingFileOp>;

    closed spec fn view(&self) -> Map<FileId, PendingFileOp> {
        self.ops@
    }
}

impl PendingFileOps {
    /// No operation in flight.
    pub fn new() -> (r: Self)
        ensures
            r@ == Map::<FileId, PendingFileOp>::empty(),
    {
        PendingFileOps { ops: HashMap::new() }
    }

    /// Records that the operation `kind`, asked by `request_id` on `conn_id`,
    /// was started on `file_id`. A previous record for that file is replaced.
    pub fn insert(
        &mut self,
        file_id: FileId,
        request_id: String,
        conn_id: ConnectionId,
        kind: FileOpKind,
    )
        ensures
            final(self)@ == old(self)@.insert(file_id, PendingFileOp { request_id, conn_id, kind }),
    {
        let _ = self.ops.insert(file_id, PendingFileOp { request_id, conn_id, kind });
    }

    /// The operation in flight on `file_id`, if any.
    pub fn get(&self, file_id: FileId) -> (r: Option<&PendingFileOp>)
        ensures
            match r {
                Some(op) => self@.contains_key(file_id) && *op == self@[file_id],
                None => !self@.contains_key(file_id),
            },
    {
        self.ops.get(&file_id)
    }

    /// Forgets the operation on `file_id` and hands it back.
    pub fn remove(&mut self, file_id: FileId) -> (r: Option<PendingFileOp>)
        ensures
            final(self)@ == old(self)@.remove(file_id),
            match r {
                Some(op) => old(self)@.contains_key(file_id) && op == old(self)@[file_id],
                None => !old(self)@.contains_key(file_id),
            },
    {
        self.ops.remove(&file_id)
    }

    /// Handles an event of the file model about `file_id`: when it ends an
    /// operation in flight there, the operation is forgotten and its
    /// response is returned with the connection and request it goes to.
    pub fn handle_file_event(&mut self, file_id: FileId, event: &FileEvent) -> (r: Option<
        FileOpDelivery,
    >)
        ensures
            final(self)@ == event_step(old(self)@, file_id, *event).0,
            match r {
                Some(d) => event_step(old(self)@, file_id, *event).1 == Some(delivery_view(d)),
                None => event_step(old(self)@, file_id, *event).1 is None,
            },
    {
        let result = match event {
            FileEvent::Saved => FileOpResult::Success,
            FileEvent::FailedToSave { error } => FileOpResult::Error { message: error.clone() },
            _ => {
                return None;
            },
        };
        match self.ops.remove(&file_id) {
            Some(op) => Some(
                FileOpDelivery {
                    conn_id: op.conn_id,
                    request_id: op.request_id,
                    response: FileOpResponse { kind: op.kind, result },
                },
            ),
            None => None,
        }
    }

    /// The operation on `file_id` could not be started: it is forgotten, and
    /// the request is answered with an error that quotes `error`.
    pub fn dispatch_failed(&mut self, file_id: FileId, kind: FileOpKind, error: &str) -> (r:
        FileOpResponse)
        ensures
            final(self)@ == old(self)@.remove(file_id),
            r.kind == kind,
            result_error(r.result) == Some(initiate_failure_message(kind, error@)),
    {
        let _ = self.ops.remove(&file_id);
        let mut message = match kind {
            FileOpKind::Write => String::from_str("Failed to initiate write: "),
            FileOpKind::Delete => String::from_str("Failed to initiate delete: "),
        };
        message.append(error);
        FileOpResponse { kind, result: FileOpResult::Error { message } }
    }
}

/// An operation that was started and then saved is answered once, with a
/// success of its kind, to the request and connection it came from; the
/// record is gone afterwards.
pub proof fn lemma_started_operation_is_answered(
    ops: Map<FileId, PendingFileOp>,
    file_id: FileId,
    request_id: String,
    conn_id: ConnectionId,
    kind: FileOpKind,
)
    ensures
        ({
            let started = ops.insert(file_id, PendingFileOp { request_id, conn_id, kind });
            let (after, delivery) = event_step(started, file_id, FileEvent::Saved);
            &&& delivery == Some((conn_id, request_id@, kind, None::<Seq<char>>))
            &&& !after.contains_key(file_id)
            &&& after == ops.remove(file_id)
        }),
{
    let started = ops.insert(file_id, PendingFileOp { request_id, conn_id, kind });
    assert(started.remove(file_id) =~= ops.remove(file_id));
}

/// Each operation is answered at most once: after the event that answers
/// it, no further event about the same file produces a response.
pub proof fn lemma_answered_at_most_once(
    ops: Map<FileId, PendingFileOp>,
    file_id: FileId,
    first: FileEvent,
    later: FileEvent,
)
    requires
        event_step(ops, file_id, first).1 is Some,
    ensures
        event_step(event_step(ops, file_id, first).0, file_id, later).1 is None,
{
}

/// Events that end no operation (loads and updates) change nothing.
pub proof fn lemma_other_events_change_nothing(
    ops: Map<FileId, PendingFileOp>,
    file_id: FileId,
    event: FileEvent,
)
    requires
        settles(event) is None,
    ensures
        event_step(ops, file_id, event) == (ops, None::<(ConnectionId, Seq<char>, FileOpKind, Option<Seq<char>>)>),
{
}

} // verus!
