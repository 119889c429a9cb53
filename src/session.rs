//! The read of one document, as a session of steps against the store: open
//! the store, begin a transaction, look the key up, commit (or roll back
//! after a failed lookup), close. The caller
//! performs each step it is asked for and reports how it went; the session
//! decides what comes next and, at the end, the outcome of the read.

use vstd::prelude::*;
use vstd::utf8::{decode_utf8, encode_utf8, valid_utf8};
use crate::text::decode_text;

verus! {

/// How far a read has come.
#[derive(Clone, Copy, PartialEq, Eq, Structural, Debug)]
pub enum Stage {
    Open,
    Begin,
    Lookup,
    Commit,
    Rollback,
    Close,
    Done,
}

/// The kinds of failure of a read.
#[derive(Clone, Copy, PartialEq, Eq, Structural, Debug)]
pub enum ErrorKind {
    /// The store could not be opened.
    Init,
    /// A transaction could not be begun, or its lookup failed.
    Transaction,
    /// The transaction could not be committed.
    Commit,
    /// The store could not be closed.
    Close,
    /// The stored document is not valid UTF-8.
    Decode,
    /// No document is stored under the key.
    NotFound,
}

/// A failed read: its kind, and the store's message (for `NotFound`, the key).
#[derive(Debug)]
pub struct ReadError {
    pub kind: ErrorKind,
    pub detail: String,
}

impl View for ReadError {
    type V = (ErrorKind, Seq<char>);

    open spec fn view(&self) -> (ErrorKind, Seq<char>) {
        (self.kind, self.detail@)
    }
}

/// The detail of a `Decode` failure.
pub open spec fn decode_detail() -> Seq<char> {
    "stored document is not valid utf-8"@
}

/// The message that tells what went wrong.
pub open spec fn message_of(e: (ErrorKind, Seq<char>)) -> Seq<char> {
    if e.0 == ErrorKind::NotFound {
        "no document found with key "@ + e.1
    } else {
        e.1
    }
}

impl ReadError {
    /// The message that tells what went wrong.
    pub fn message(&self) -> (r: String)
        ensures
            r@ == message_of(self@),
    {
        match self.kind {
            ErrorKind::NotFound => String::from_str("no document found with key ").concat(
                self.detail.as_str(),
            ),
            _ => self.detail.clone(),
        }
    }
}

/// The outcome of a read, seen as text or as an error.
pub open spec fn outcome_view(r: Result<String, ReadError>) -> Result<Seq<char>, (ErrorKind, Seq<char>)> {
    match r {
        Ok(t) => Ok(t@),
        Err(e) => Err(e@),
    }
}

/// How a step that the session asked for went.
#[derive(Debug)]
pub enum Event {
    /// Opening, beginning, committing or closing went through.
    Done,
    /// The lookup found this value.
    Found(Vec<u8>),
    /// The lookup found nothing under the key.
    Missing,
    /// The step failed with this message from the store.
    Failed(String),
}

/// An event, seen over sequences.
pub enum Signal {
    Done,
    Found(Seq<u8>),
    Missing,
    Failed(Seq<char>),
}

impl View for Event {
    type V = Signal;

    open spec fn view(&self) -> Signal {
        match self {
            Event::Done => Signal::Done,
            Event::Found(v) => Signal::Found(v@),
            Event::Missing => Signal::Missing,
            Event::Failed(m) => Signal::Failed(m@),
        }
    }
}

/// What the session asks its caller to do next.
#[derive(Debug)]
pub enum Action {
    OpenStore,
    BeginTransaction,
    /// Look up the value stored under these key bytes.
    Lookup(Vec<u8>),
    Commit,
    /// Roll the transaction back.
    Rollback,
    CloseStore,
    /// The read is over, with this outcome.
    Finish(Result<String, ReadError>),
}

/// An action, seen over sequences.
pub enum Step {
    OpenStore,
    BeginTransaction,
    Lookup(Seq<u8>),
    Commit,
    Rollback,
    CloseStore,
    Finish(Result<Seq<char>, (ErrorKind, Seq<char>)>),
}

impl View for Action {
    type V = Step;

    open spec fn view(&self) -> Step {
        match self {
            Action::OpenStore => Step::OpenStore,
            Action::BeginTransaction => Step::BeginTransaction,
            Action::Lookup(k) => Step::Lookup(k@),
            Action::Commit => Step::Commit,
            Action::Rollback => Step::Rollback,
            Action::CloseStore => Step::CloseStore,
            Action::Finish(r) => Step::Finish(outcome_view(*r)),
        }
    }
}

/// The read of the document stored under `key`.
#[derive(Debug)]
pub struct ReadSession {
    pub key: String,
    pub stage: Stage,
    /// What the lookup found, once it has run.
    pub fetched: Option<Vec<u8>>,
    /// The first step that failed, while the store is being closed after it.
    pub failure: Option<ReadError>,
}

/// A session, seen over sequences.
pub struct SessionView {
    pub key: Seq<char>,
    pub stage: Stage,
    pub fetched: Option<Seq<u8>>,
    pub failure: Option<(ErrorKind, Seq<char>)>,
}

impl View for ReadSession {
    type V = SessionView;

    open spec fn view(&self) -> SessionView {
        SessionView {
            key: self.key@,
            stage: self.stage,
            fetched: match self.fetched {
                Some(v) => Some(v@),
                None => None,
            },
            failure: match self.failure {
                Some(e) => Some(e@),
                None => None,
            },
        }
    }
}

/// The outcome of a read whose steps all went through: the stored document
/// as text, or why there is none.
pub open spec fn conclusion(key: Seq<char>, fetched: Option<Seq<u8>>) -> Result<
    Seq<char>,
    (ErrorKind, Seq<char>),
> {
    match fetched {
        None => Err((ErrorKind::NotFound, key)),
        Some(b) => if valid_utf8(b) {
            Ok(decode_utf8(b))
        } else {
            Err((ErrorKind::Decode, decode_detail()))
        },
    }
}

/// A session that has not yet done anything.
pub open spec fn fresh(key: Seq<char>) -> SessionView {
    SessionView { key, stage: Stage::Open, fetched: None, failure: None }
}

/// A session moved on to `stage`, with its key and what it found kept.
pub open spec fn moved(s: SessionView, stage: Stage) -> SessionView {
    SessionView { key: s.key, stage, fetched: s.fetched, failure: s.failure }
}

/// A session moved on to `stage` after a step that failed with `e`.
pub open spec fn failed(s: SessionView, stage: Stage, e: (ErrorKind, Seq<char>)) -> SessionView {
    SessionView { key: s.key, stage, fetched: s.fetched, failure: Some(e) }
}

/// The outcome of a read when closing the store went as `ev` says: the
/// first failure if a step failed before, else the failed close, else what
/// the lookup found.
pub open spec fn closing_outcome(s: SessionView, ev: Signal) -> Result<Seq<char>, (ErrorKind, Seq<char>)> {
    match s.failure {
        Some(e) => Err(e),
        None => match ev {
            Signal::Failed(m) => Err((ErrorKind::Close, m)),
            _ => conclusion(s.key, s.fetched),
        },
    }
}

/// What a session does on an event: its next state and what it asks for.
/// A store that did not open ends the read at once. Once it is open, a
/// failure is recorded and the read goes on to close the store, rolling
/// back first a transaction whose lookup failed; the read then ends with
/// the first failure. At the lookup, `Found` records the value and any
/// other success records none.
pub open spec fn transition(s: SessionView, ev: Signal) -> (SessionView, Step) {
    match s.stage {
        Stage::Open => match ev {
            Signal::Failed(m) => (
                moved(s, Stage::Done),
                Step::Finish(Err((ErrorKind::Init, m))),
            ),
            _ => (moved(s, Stage::Begin), Step::BeginTransaction),
        },
        Stage::Begin => match ev {
            Signal::Failed(m) => (
                failed(s, Stage::Close, (ErrorKind::Transaction, m)),
                Step::CloseStore,
            ),
            _ => (moved(s, Stage::Lookup), Step::Lookup(encode_utf8(s.key))),
        },
        Stage::Lookup => match ev {
            Signal::Failed(m) => (
                failed(s, Stage::Rollback, (ErrorKind::Transaction, m)),
                Step::Rollback,
            ),
            Signal::Found(v) => (
                SessionView { key: s.key, stage: Stage::Commit, fetched: Some(v), failure: s.failure },
                Step::Commit,
            ),
            _ => (
                SessionView { key: s.key, stage: Stage::Commit, fetched: None, failure: s.failure },
                Step::Commit,
            ),
        },
        Stage::Commit => match ev {
            Signal::Failed(m) => (
                failed(s, Stage::Close, (ErrorKind::Commit, m)),
                Step::CloseStore,
            ),
            _ => (moved(s, Stage::Close), Step::CloseStore),
        },
        Stage::Rollback => (moved(s, Stage::Close), Step::CloseStore),
        _ => (
            SessionView { key: s.key, stage: Stage::Done, fetched: s.fetched, failure: None },
            Step::Finish(closing_outcome(s, ev)),
        ),
    }
}

impl ReadSession {
    /// Starts the read of the document stored under `key`: the first thing
    /// to do is to open the store.
    pub fn new(key: String) -> (r: (ReadSession, Action))
        ensures
            r.0@ == fresh(key@),
            r.1@ == Step::OpenStore,
    {
        (ReadSession { key, stage: Stage::Open, fetched: None, failure: None }, Action::OpenStore)
    }

    /// Whether the read is over.
    pub fn is_finished(&self) -> (r: bool)
        ensures
            r == (self.stage == Stage::Done),
    {
        self.stage == Stage::Done
    }

    /// Takes the event that the last step gave and says what to do next.
    pub fn step(&mut self, ev: Event) -> (r: Action)
        requires
            old(self).stage != Stage::Done,
        ensures
            (final(self)@, r@) == transition(old(self)@, ev@),
    {
        match self.stage {
            Stage::Open => match ev {
                Event::Failed(m) => {
                    self.stage = Stage::Done;
                    Action::Finish(Err(ReadError { kind: ErrorKind::Init, detail: m }))
                },
                _ => {
                    self.stage = Stage::Begin;
                    Action::BeginTransaction
                },
            },
            Stage::Begin => match ev {
                Event::Failed(m) => {
                    self.stage = Stage::Close;
                    self.failure = Some(ReadError { kind: ErrorKind::Transaction, detail: m });
                    Action::CloseStore
                },
                _ => {
                    self.stage = Stage::Lookup;
                    Action::Lookup(self.key.as_str().as_bytes_vec())
                },
            },
            Stage::Lookup => match ev {
                Event::Failed(m) => {
                    self.stage = Stage::Rollback;
                    self.failure = Some(ReadError { kind: ErrorKind::Transaction, detail: m });
                    Action::Rollback
                },
                Event::Found(v) => {
                    self.stage = Stage::Commit;
                    self.fetched = Some(v);
                    Action::Commit
                },
                _ => {
                    self.stage = Stage::Commit;
                    self.fetched = None;
                    Action::Commit
                },
            },
            Stage::Commit => match ev {
                Event::Failed(m) => {
                    self.stage = Stage::Close;
                    self.failure = Some(ReadError { kind: ErrorKind::Commit, detail: m });
                    Action::CloseStore
                },
                _ => {
                    self.stage = Stage::Close;
                    Action::CloseStore
                },
            },
            Stage::Rollback => {
                self.stage = Stage::Close;
                Action::CloseStore
            },
            _ => {
                self.stage = Stage::Done;
                match self.failure.take() {
                    Some(e) => Action::Finish(Err(e)),
                    None => match ev {
                        Event::Failed(m) => Action::Finish(
                            Err(ReadError { kind: ErrorKind::Close, detail: m }),
                        ),
                        _ => Action::Finish(self.conclude()),
                    },
                }
            },
        }
    }

    /// The outcome once every step went through.
    fn conclude(&self) -> (r: Result<String, ReadError>)
        ensures
            outcome_view(r) == conclusion(self@.key, self@.fetched),
    {
        match &self.fetched {
            None => Err(ReadError { kind: ErrorKind::NotFound, detail: self.key.clone() }),
            Some(bytes) => match decode_text(bytes.clone()) {
                Some(text) => Ok(text),
                None => Err(
                    ReadError {
                        kind: ErrorKind::Decode,
                        detail: String::from_str("stored document is not valid utf-8"),
                    },
                ),
            },
        }
    }
}

} // verus!
