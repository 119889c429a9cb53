//! What is sent back for a request, and the local copy kept of a document
//! that was read.

use vstd::prelude::*;
use crate::session::{message_of, outcome_view, ErrorKind, ReadError};
use crate::text::{get_error, lower_of};

verus! {

/// A response: its status code, its content type if one is set, its body.
#[derive(Debug)]
pub struct Reply {
    pub status: u16,
    pub content_type: Option<String>,
    pub body: String,
}

/// A response, seen over sequences.
pub struct ReplyView {
    pub status: u16,
    pub content_type: Option<Seq<char>>,
    pub body: Seq<char>,
}

impl View for Reply {
    type V = ReplyView;

    open spec fn view(&self) -> ReplyView {
        ReplyView {
            status: self.status,
            content_type: match self.content_type {
                Some(c) => Some(c@),
                None => None,
            },
            body: self.body@,
        }
    }
}

/// The content type of a document.
pub open spec fn markdown_type() -> Seq<char> {
    "text/markdown"@
}

/// What stands before the lower-cased message of a failed read.
pub open spec fn failure_prefix() -> Seq<char> {
    "could not read db: "@
}

/// The response to a read with this outcome, the message of a failure
/// being already lower-cased.
pub open spec fn reply_of(outcome: Result<Seq<char>, (ErrorKind, Seq<char>)>, lowered: Seq<char>) -> ReplyView {
    match outcome {
        Ok(text) => ReplyView { status: 200, content_type: Some(markdown_type()), body: text },
        Err(_) => ReplyView { status: 500, content_type: None, body: failure_prefix() + lowered },
    }
}

/// The response to a read with this outcome.
pub open spec fn reply_spec(outcome: Result<Seq<char>, (ErrorKind, Seq<char>)>) -> ReplyView {
    match outcome {
        Ok(_) => reply_of(outcome, Seq::empty()),
        Err(e) => reply_of(outcome, lower_of(message_of(e))),
    }
}

/// A document that was read: status 200, typed as markdown, with the
/// document as body.
pub fn document_reply(text: String) -> (r: Reply)
    ensures
        r@ == reply_of(Ok(text@), Seq::empty()),
{
    Reply { status: 200, content_type: Some(String::from_str("text/markdown")), body: text }
}

/// A failed read whose message is already lower-cased: status 500, no
/// content type, the message after a short context.
pub fn failure_reply_from(lowered: &str) -> (r: Reply)
    ensures
        r@ == (ReplyView { status: 500, content_type: None, body: failure_prefix() + lowered@ }),
{
    Reply {
        status: 500,
        content_type: None,
        body: String::from_str("could not read db: ").concat(lowered),
    }
}

/// A failed read: status 500, no content type, its lower-cased message
/// after a short context.
pub fn failure_reply(e: &ReadError) -> (r: Reply)
    ensures
        r@ == reply_spec(Err(e@)),
{
    let lowered = get_error(e.message());
    failure_reply_from(lowered.as_str())
}

/// The response to a request that is not served: status 404, empty body.
pub fn unsupported_reply() -> (r: Reply)
    ensures
        r@ == (ReplyView { status: 404, content_type: None, body: Seq::empty() }),
{
    Reply { status: 404, content_type: None, body: String::new() }
}

/// The response to a read with this outcome.
pub fn reply_for(outcome: Result<String, ReadError>) -> (r: Reply)
    ensures
        r@ == reply_spec(outcome_view(outcome)),
{
    match outcome {
        Ok(text) => document_reply(text),
        Err(e) => failure_reply(&e),
    }
}

/// A local copy of a document: the file to write and the text to put there.
#[derive(Debug)]
pub struct CacheCopy {
    pub file: String,
    pub text: String,
}

/// The file that keeps the local copy of the document under `key`.
pub open spec fn cache_file_of(key: Seq<char>) -> Seq<char> {
    "./"@ + key + ".md"@
}

/// The file that keeps the local copy of the document under `key`.
pub fn cache_file_name(key: &str) -> (r: String)
    ensures
        r@ == cache_file_of(key@),
{
    String::from_str("./").concat(key).concat(".md")
}

/// The local copy to keep after a read: the document, when one was read.
pub fn cache_copy(key: &str, outcome: &Result<String, ReadError>) -> (r: Option<CacheCopy>)
    ensures
        match outcome {
            Ok(text) => r matches Some(c) && c.file@ == cache_file_of(key@) && c.text@ == text@,
            Err(_) => r is None,
        },
{
    match outcome {
        Ok(text) => Some(CacheCopy { file: cache_file_name(key), text: text.clone() }),
        Err(_) => None,
    }
}

} // verus!
