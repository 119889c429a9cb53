use docserve::config::StoreOptions;
use docserve::reply::{cache_copy, cache_file_name, failure_reply_from, reply_for, unsupported_reply};
use docserve::route::{key_from_path, route, Route};
use docserve::session::{Action, ErrorKind, Event, ReadError, ReadSession};
use docserve::text::{get_error, same_text};

/// Runs a read of `key`, answering the steps with `events` in turn; gives
/// back the names of the steps asked for and the outcome.
fn run(key: &str, events: Vec<Event>) -> (Vec<String>, Result<String, ReadError>) {
    let (mut session, mut action) = ReadSession::new(key.to_string());
    let mut steps = Vec::new();
    let mut events = events.into_iter();
    loop {
        match action {
            Action::Finish(outcome) => {
                assert!(session.is_finished());
                return (steps, outcome);
            }
            Action::OpenStore => steps.push("open".to_string()),
            Action::BeginTransaction => steps.push("begin".to_string()),
            Action::Lookup(ref k) => steps.push(format!("lookup {}", String::from_utf8(k.clone()).unwrap())),
            Action::Commit => steps.push("commit".to_string()),
            Action::Rollback => steps.push("rollback".to_string()),
            Action::CloseStore => steps.push("close".to_string()),
        }
        let ev = events.next().expect("the session asked for more steps than were given");
        action = session.step(ev);
    }
}

fn healthy(found: Event) -> Vec<Event> {
    vec![Event::Done, Event::Done, found, Event::Done, Event::Done]
}

#[test]
fn get_stored_document_returns_markdown() {
    let route = route("GET", "/docs/hello");
    let key = match route {
        Route::Fetch(k) => k,
        Route::Unsupported => panic!("GET must be served"),
    };
    assert_eq!(key, "hello");
    let (steps, outcome) = run(&key, healthy(Event::Found(b"# Hello\n".to_vec())));
    assert_eq!(steps, vec!["open", "begin", "lookup hello", "commit", "close"]);
    let copy = cache_copy(&key, &outcome).expect("a read document is copied");
    assert_eq!(copy.file, "./hello.md");
    assert_eq!(copy.text, "# Hello\n");
    let reply = reply_for(outcome);
    assert_eq!(reply.status, 200);
    assert_eq!(reply.content_type.as_deref(), Some("text/markdown"));
    assert_eq!(reply.body, "# Hello\n");
}

#[test]
fn get_missing_document_is_server_error() {
    let (_, outcome) = run("missing", healthy(Event::Missing));
    match &outcome {
        Err(e) => {
            assert_eq!(e.kind, ErrorKind::NotFound);
            assert_eq!(e.detail, "missing");
            assert_eq!(e.message(), "no document found with key missing");
        }
        Ok(_) => panic!("nothing is stored under the key"),
    }
    assert!(cache_copy("missing", &outcome).is_none());
    let reply = reply_for(outcome);
    assert_eq!(reply.status, 500);
    assert!(reply.content_type.is_none());
    assert!(reply.body.contains("no document found with key missing"));
    assert_eq!(reply.body, "could not read db: no document found with key missing");
}

#[test]
fn post_is_not_found_with_empty_body() {
    assert!(matches!(route("POST", "/anything"), Route::Unsupported));
    let reply = unsupported_reply();
    assert_eq!(reply.status, 404);
    assert!(reply.content_type.is_none());
    assert_eq!(reply.body, "");
}

#[test]
fn store_that_cannot_open_fails_every_get() {
    for _ in 0..3 {
        let (steps, outcome) = run("hello", vec![Event::Failed("Permission Denied".to_string())]);
        assert_eq!(steps, vec!["open"]);
        match &outcome {
            Err(e) => assert_eq!(e.kind, ErrorKind::Init),
            Ok(_) => panic!("the store did not open"),
        }
        let reply = reply_for(outcome);
        assert_eq!(reply.status, 500);
        assert_eq!(reply.body, "could not read db: permission denied");
    }
    let (_, outcome) = run("hello", healthy(Event::Found(b"hi".to_vec())));
    assert_eq!(reply_for(outcome).status, 200);
}

#[test]
fn each_failing_stage_has_its_kind() {
    let cases = vec![
        (0, ErrorKind::Init, vec!["open"]),
        (1, ErrorKind::Transaction, vec!["open", "begin", "close"]),
        (2, ErrorKind::Transaction, vec!["open", "begin", "lookup k", "rollback", "close"]),
        (3, ErrorKind::Commit, vec!["open", "begin", "lookup k", "commit", "close"]),
        (4, ErrorKind::Close, vec!["open", "begin", "lookup k", "commit", "close"]),
    ];
    for (at, kind, expected) in cases {
        let mut events: Vec<Event> = Vec::new();
        for i in 0..5 {
            if i == at {
                events.push(Event::Failed("Engine Broke".to_string()));
            } else if i == 2 {
                events.push(Event::Found(b"x".to_vec()));
            } else {
                events.push(Event::Done);
            }
        }
        let (steps, outcome) = run("k", events);
        assert_eq!(steps, expected);
        match &outcome {
            Err(e) => {
                assert_eq!(e.kind, kind);
                assert_ne!(e.kind, ErrorKind::NotFound);
                assert_eq!(e.message(), "Engine Broke");
            }
            Ok(_) => panic!("a failed step ends the read"),
        }
        assert_eq!(reply_for(outcome).body, "could not read db: engine broke");
    }
}

#[test]
fn first_failure_wins_over_failed_close() {
    let events = vec![
        Event::Done,
        Event::Done,
        Event::Failed("Lookup Broke".to_string()),
        Event::Done,
        Event::Failed("Close Broke".to_string()),
    ];
    let (steps, outcome) = run("k", events);
    assert_eq!(steps, vec!["open", "begin", "lookup k", "rollback", "close"]);
    match &outcome {
        Err(e) => {
            assert_eq!(e.kind, ErrorKind::Transaction);
            assert_eq!(e.detail, "Lookup Broke");
        }
        Ok(_) => panic!("the lookup failed"),
    }
    let events = vec![Event::Done, Event::Failed("No Txn".to_string()), Event::Failed("Close Broke".to_string())];
    let (steps, outcome) = run("k", events);
    assert_eq!(steps, vec!["open", "begin", "close"]);
    assert_eq!(reply_for(outcome).body, "could not read db: no txn");
}

#[test]
fn invalid_utf8_is_decode_error() {
    let (_, outcome) = run("bin", healthy(Event::Found(vec![0xff, 0xfe, 0x41])));
    match &outcome {
        Err(e) => assert_eq!(e.kind, ErrorKind::Decode),
        Ok(_) => panic!("the bytes are not UTF-8"),
    }
    assert_eq!(reply_for(outcome).status, 500);
}

#[test]
fn round_trip_keeps_bytes() {
    let doc = "Grüße — 文書 🚀\n".as_bytes().to_vec();
    let (_, outcome) = run("unicode", healthy(Event::Found(doc.clone())));
    let reply = reply_for(outcome);
    assert_eq!(reply.status, 200);
    assert_eq!(reply.body.as_bytes(), &doc[..]);
}

#[test]
fn repeated_reads_are_identical() {
    let first = run("hello", healthy(Event::Found(b"# Hello\n".to_vec())));
    let second = run("hello", healthy(Event::Found(b"# Hello\n".to_vec())));
    assert_eq!(first.0, second.0);
    assert!(first.0.iter().all(|s| !s.contains("write")));
    assert_eq!(reply_for(first.1).body, reply_for(second.1).body);
}

#[test]
fn lookup_event_other_than_found_records_nothing() {
    let (_, outcome) = run("k", vec![Event::Done, Event::Done, Event::Done, Event::Done, Event::Done]);
    match outcome {
        Err(e) => assert_eq!(e.kind, ErrorKind::NotFound),
        Ok(_) => panic!("nothing was found"),
    }
}

#[test]
fn key_is_last_segment() {
    assert_eq!(key_from_path("/docs/hello"), "hello");
    assert_eq!(key_from_path("/a/b/c"), "c");
    assert_eq!(key_from_path("hello"), "hello");
    assert_eq!(key_from_path("/docs/"), "");
    assert_eq!(key_from_path(""), "");
    assert_eq!(key_from_path("/"), "");
    assert_eq!(key_from_path("/día/ñandú"), "ñandú");
}

#[test]
fn empty_key_is_looked_up_as_given() {
    let key = match route("GET", "/docs/") {
        Route::Fetch(k) => k,
        Route::Unsupported => panic!("GET must be served"),
    };
    assert_eq!(key, "");
    let (steps, outcome) = run(&key, healthy(Event::Missing));
    assert_eq!(steps[2], "lookup ");
    assert_eq!(reply_for(outcome).body, "could not read db: no document found with key ");
}

#[test]
fn methods_other_than_get_are_unsupported() {
    for m in ["POST", "PUT", "DELETE", "get", "HEAD"] {
        assert!(matches!(route(m, "/docs/hello"), Route::Unsupported));
    }
}

#[test]
fn error_text_is_lowered() {
    assert_eq!(get_error("No Document FOUND".to_string()), "no document found");
    assert_eq!(get_error(String::new()), "");
    assert_eq!(failure_reply_from("abc").body, "could not read db: abc");
}

#[test]
fn texts_compare_by_characters() {
    assert!(same_text("GET", "GET"));
    assert!(!same_text("GET", "GETS"));
    assert!(!same_text("GET", "GOT"));
    assert!(same_text("", ""));
}

#[test]
fn cache_file_is_named_after_key() {
    assert_eq!(cache_file_name("notes"), "./notes.md");
    let err: Result<String, ReadError> = Err(ReadError { kind: ErrorKind::Close, detail: "x".to_string() });
    assert!(cache_copy("notes", &err).is_none());
}

#[test]
fn store_options_are_fixed() {
    let o = StoreOptions::documents();
    assert_eq!(o.path, "/home/lzuccarelli/database/documents.kv");
    assert!(o.path.ends_with(".kv"));
    assert_eq!(o.max_memtable_size, 100 * 1024 * 1024);
    assert_eq!(o.block_size, 4096);
    assert_eq!(o.level_count, 1);
}
