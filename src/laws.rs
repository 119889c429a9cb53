//! What holds of every read against a store whose operations all succeed,
//! and of every read that the store fails.

use vstd::prelude::*;
use vstd::utf8::{decode_utf8, decode_utf8_encode_utf8, encode_utf8, valid_utf8};
use crate::reply::{markdown_type, reply_spec, ReplyView};
use crate::session::{
    conclusion, decode_detail, fresh, message_of, transition, ErrorKind, SessionView, Signal,
    Stage, Step,
};

verus! {

/// How the lookup goes when the store holds `stored` under the key.
pub open spec fn lookup_signal(stored: Option<Seq<u8>>) -> Signal {
    match stored {
        Some(d) => Signal::Found(d),
        None => Signal::Missing,
    }
}

/// The steps that a session in state `s` asks for when the steps go as
/// `evs` says, one event per step, up to the end of the read.
pub open spec fn run(s: SessionView, evs: Seq<Signal>) -> Seq<Step>
    decreases evs.len(),
{
    if evs.len() == 0 || s.stage == Stage::Done {
        Seq::empty()
    } else {
        let t = transition(s, evs[0]);
        seq![t.1] + run(t.0, evs.drop_first())
    }
}

/// The steps of a read of `key` when the steps go as `evs` says.
pub open spec fn read_steps(key: Seq<char>, evs: Seq<Signal>) -> Seq<Step> {
    seq![Step::OpenStore] + run(fresh(key), evs)
}

/// The steps of a read of `key` against a store that holds `stored` under
/// it and whose every operation succeeds.
pub open spec fn healthy_steps(key: Seq<char>, stored: Option<Seq<u8>>) -> Seq<Step> {
    read_steps(key, seq![Signal::Done, Signal::Done, lookup_signal(stored), Signal::Done, Signal::Done])
}

/// A read consists of reads alone: it opens the store, begins a
/// transaction, looks up the key's UTF-8 bytes, commits, closes, and ends
/// with an outcome that depends on the key and the stored value alone. So
/// it leaves the stored value as it was, and reading the same key again
/// gives the same outcome and the same response.
pub proof fn lemma_read_is_repeatable(key: Seq<char>, stored: Option<Seq<u8>>)
    ensures
        healthy_steps(key, stored) == seq![
            Step::OpenStore,
            Step::BeginTransaction,
            Step::Lookup(encode_utf8(key)),
            Step::Commit,
            Step::CloseStore,
            Step::Finish(conclusion(key, stored)),
        ],
{
    reveal_with_fuel(run, 6);
    assert(healthy_steps(key, stored) =~= seq![
        Step::OpenStore,
        Step::BeginTransaction,
        Step::Lookup(encode_utf8(key)),
        Step::Commit,
        Step::CloseStore,
        Step::Finish(conclusion(key, stored)),
    ]);
}

/// A document stored under a key is read back as text whose UTF-8 bytes
/// are exactly the stored bytes, and answered with status 200, typed as
/// markdown, with that text as body.
pub proof fn lemma_stored_document_is_returned(key: Seq<char>, doc: Seq<u8>)
    requires
        valid_utf8(doc),
    ensures
        healthy_steps(key, Some(doc)).last() == Step::Finish(Ok(decode_utf8(doc))),
        encode_utf8(decode_utf8(doc)) == doc,
        reply_spec(Ok(decode_utf8(doc))) == (ReplyView {
            status: 200,
            content_type: Some(markdown_type()),
            body: decode_utf8(doc),
        }),
{
    lemma_read_is_repeatable(key, Some(doc));
    decode_utf8_encode_utf8(doc);
}

/// A key under which nothing is stored ends the read with a `NotFound`
/// error that carries the key, answered with status 500.
pub proof fn lemma_absent_key_is_not_found(key: Seq<char>)
    ensures
        healthy_steps(key, None).last() == Step::Finish(Err((ErrorKind::NotFound, key))),
        message_of((ErrorKind::NotFound, key)) == "no document found with key "@ + key,
        reply_spec(Err((ErrorKind::NotFound, key))).status == 500,
{
    lemma_read_is_repeatable(key, None);
}

/// A store that does not open ends the read at once. After it opened, a
/// failed step still has the store closed, and a transaction whose lookup
/// failed rolled back first; the read then ends with the first failure,
/// however the steps after it went, with a kind that is neither `NotFound`
/// nor `Decode` and is answered with status 500.
pub proof fn lemma_failure_still_closes(
    key: Seq<char>,
    msg: Seq<char>,
    lookup: Signal,
    undo: Signal,
    closing: Signal,
)
    requires
        !(lookup is Failed),
    ensures
        read_steps(key, seq![Signal::Failed(msg)]) == seq![
            Step::OpenStore,
            Step::Finish(Err((ErrorKind::Init, msg))),
        ],
        read_steps(key, seq![Signal::Done, Signal::Failed(msg), closing]) == seq![
            Step::OpenStore,
            Step::BeginTransaction,
            Step::CloseStore,
            Step::Finish(Err((ErrorKind::Transaction, msg))),
        ],
        read_steps(key, seq![Signal::Done, Signal::Done, Signal::Failed(msg), undo, closing]) == seq![
            Step::OpenStore,
            Step::BeginTransaction,
            Step::Lookup(encode_utf8(key)),
            Step::Rollback,
            Step::CloseStore,
            Step::Finish(Err((ErrorKind::Transaction, msg))),
        ],
        read_steps(key, seq![Signal::Done, Signal::Done, lookup, Signal::Failed(msg), closing]) == seq![
            Step::OpenStore,
            Step::BeginTransaction,
            Step::Lookup(encode_utf8(key)),
            Step::Commit,
            Step::CloseStore,
            Step::Finish(Err((ErrorKind::Commit, msg))),
        ],
        read_steps(key, seq![Signal::Done, Signal::Done, lookup, Signal::Done, Signal::Failed(msg)]) == seq![
            Step::OpenStore,
            Step::BeginTransaction,
            Step::Lookup(encode_utf8(key)),
            Step::Commit,
            Step::CloseStore,
            Step::Finish(Err((ErrorKind::Close, msg))),
        ],
        forall|k: ErrorKind|
            #![auto]
            k == ErrorKind::Init || k == ErrorKind::Transaction || k == ErrorKind::Commit || k
                == ErrorKind::Close ==> reply_spec(Err((k, msg))).status == 500,
{
    reveal_with_fuel(run, 6);
    assert(read_steps(key, seq![Signal::Failed(msg)]) =~= seq![
        Step::OpenStore,
        Step::Finish(Err((ErrorKind::Init, msg))),
    ]);
    assert(read_steps(key, seq![Signal::Done, Signal::Failed(msg), closing]) =~= seq![
        Step::OpenStore,
        Step::BeginTransaction,
        Step::CloseStore,
        Step::Finish(Err((ErrorKind::Transaction, msg))),
    ]);
    assert(read_steps(key, seq![Signal::Done, Signal::Done, Signal::Failed(msg), undo, closing]) =~= seq![
        Step::OpenStore,
        Step::BeginTransaction,
        Step::Lookup(encode_utf8(key)),
        Step::Rollback,
        Step::CloseStore,
        Step::Finish(Err((ErrorKind::Transaction, msg))),
    ]);
    assert(read_steps(key, seq![Signal::Done, Signal::Done, lookup, Signal::Failed(msg), closing]) =~= seq![
        Step::OpenStore,
        Step::BeginTransaction,
        Step::Lookup(encode_utf8(key)),
        Step::Commit,
        Step::CloseStore,
        Step::Finish(Err((ErrorKind::Commit, msg))),
    ]);
    assert(read_steps(key, seq![Signal::Done, Signal::Done, lookup, Signal::Done, Signal::Failed(msg)]) =~= seq![
        Step::OpenStore,
        Step::BeginTransaction,
        Step::Lookup(encode_utf8(key)),
        Step::Commit,
        Step::CloseStore,
        Step::Finish(Err((ErrorKind::Close, msg))),
    ]);
}

/// Whatever the store answers, a session asks it for nothing but to open,
/// to begin a transaction, to look up the UTF-8 bytes of its own key, to
/// commit or roll back that transaction, and to close: no step writes, so
/// the stored values are as they were after any read.
pub proof fn lemma_read_only(s: SessionView, evs: Seq<Signal>)
    ensures
        forall|i: int|
            0 <= i < run(s, evs).len() ==> match #[trigger] run(s, evs)[i] {
                Step::Lookup(k) => k == encode_utf8(s.key),
                _ => true,
            },
    decreases evs.len(),
{
    if evs.len() > 0 && s.stage != Stage::Done {
        let t = transition(s, evs[0]);
        lemma_read_only(t.0, evs.drop_first());
        assert(t.0.key == s.key);
        assert forall|i: int| 0 <= i < run(s, evs).len() implies match #[trigger] run(s, evs)[i] {
            Step::Lookup(k) => k == encode_utf8(s.key),
            _ => true,
        } by {
            if i > 0 {
                assert(run(s, evs)[i] == run(t.0, evs.drop_first())[i - 1]);
            }
        }
    }
}

/// Once the store is open, the read ends only from the closing stage, which
/// is entered only by asking to close the store; a transaction whose lookup
/// ran is always either committed or rolled back next.
pub proof fn lemma_open_store_is_closed(s: SessionView, ev: Signal)
    requires
        s.stage != Stage::Done,
    ensures
        transition(s, ev).1 is Finish ==> s.stage == Stage::Close || (s.stage == Stage::Open
            && ev is Failed),
        transition(s, ev).0.stage == Stage::Close && s.stage != Stage::Close
            ==> transition(s, ev).1 == Step::CloseStore,
        s.stage == Stage::Lookup ==> (transition(s, ev).1 == Step::Commit || transition(s, ev).1
            == Step::Rollback),
{
}

/// Whatever bytes are stored under a key, reading it gives them back as
/// text when they are valid UTF-8 (status 200, the text's bytes being the
/// stored ones), and a `Decode` error otherwise (status 500).
pub proof fn lemma_round_trip(key: Seq<char>, doc: Seq<u8>)
    ensures
        valid_utf8(doc) ==> healthy_steps(key, Some(doc)).last() == Step::Finish(
            Ok(decode_utf8(doc)),
        ),
        valid_utf8(doc) ==> encode_utf8(decode_utf8(doc)) == doc,
        valid_utf8(doc) ==> reply_spec(Ok(decode_utf8(doc))).status == 200,
        !valid_utf8(doc) ==> healthy_steps(key, Some(doc)).last() == Step::Finish(
            Err((ErrorKind::Decode, decode_detail())),
        ),
        !valid_utf8(doc) ==> reply_spec(Err((ErrorKind::Decode, decode_detail()))).status == 500,
{
    lemma_read_is_repeatable(key, Some(doc));
    if valid_utf8(doc) {
        decode_utf8_encode_utf8(doc);
    }
}

} // verus!
