//! Request routing: which requests read a document, and under which key.

use vstd::prelude::*;
use crate::text::same_text;

verus! {

/// Where the last segment of a path starts: just past its last `/`, or at
/// the start when it holds none.
pub open spec fn key_start(s: Seq<char>) -> int
    decreases s.len(),
{
    if s.len() == 0 {
        0
    } else if s.last() == '/' {
        s.len() as int
    } else {
        key_start(s.drop_last())
    }
}

/// The text after the last `/` of a path (all of it when it holds none).
pub open spec fn last_segment(s: Seq<char>) -> Seq<char> {
    s.subrange(key_start(s), s.len() as int)
}

/// What a request asks for.
#[derive(Debug)]
pub enum Route {
    /// Read the document stored under this key.
    Fetch(String),
    /// A method that is not served.
    Unsupported,
}

proof fn lemma_key_start_bounds(s: Seq<char>)
    ensures
        0 <= key_start(s) <= s.len(),
    decreases s.len(),
{
    if s.len() > 0 && s.last() != '/' {
        lemma_key_start_bounds(s.drop_last());
    }
}

/// The key named by a request path: its last segment.
pub fn key_from_path(path: &str) -> (key: String)
    ensures
        key@ == last_segment(path@),
{
    let n = path.unicode_len();
    let mut i: usize = n;
    assert(path@.subrange(0, n as int) == path@);
    while i > 0 && path.get_char(i - 1) != '/'
        invariant
            n == path@.len(),
            i <= n,
            key_start(path@) == key_start(path@.subrange(0, i as int)),
        decreases i,
    {
        assert(path@.subrange(0, i as int).drop_last() == path@.subrange(0, i - 1));
        i -= 1;
    }
    String::from_str(path.substring_char(i, n))
}

/// Routes a request by method and target: a `GET` reads the document named
/// by the target's last segment; any other method is not served.
pub fn route(method: &str, target: &str) -> (r: Route)
    ensures
        method@ == "GET"@ ==> (r matches Route::Fetch(k) && k@ == last_segment(target@)),
        method@ != "GET"@ ==> r is Unsupported,
{
    if same_text(method, "GET") {
        Route::Fetch(key_from_path(target))
    } else {
        Route::Unsupported
    }
}

/// The last segment of a path holds no `/`, and the path is what comes
/// before it followed by it, where what comes before is empty or ends in `/`.
pub proof fn lemma_last_segment_shape(s: Seq<char>)
    ensures
        forall|j: int| 0 <= j < last_segment(s).len() ==> last_segment(s)[j] != '/',
        s == s.subrange(0, key_start(s)) + last_segment(s),
        key_start(s) == 0 || s[key_start(s) - 1] == '/',
    decreases s.len(),
{
    lemma_key_start_bounds(s);
    if s.len() > 0 && s.last() != '/' {
        let t = s.drop_last();
        lemma_last_segment_shape(t);
        lemma_key_start_bounds(t);
        assert(last_segment(s) == last_segment(t).push(s.last()));
        assert forall|j: int| 0 <= j < last_segment(s).len() implies last_segment(s)[j] != '/' by {
            if j < last_segment(t).len() {
                assert(last_segment(s)[j] == last_segment(t)[j]);
            }
        }
        assert(s == s.subrange(0, key_start(s)) + last_segment(s));
    } else if s.len() > 0 {
        assert(last_segment(s) == Seq::<char>::empty());
        assert(s == s.subrange(0, key_start(s)) + last_segment(s));
    } else {
        assert(s == s.subrange(0, key_start(s)) + last_segment(s));
    }
}

} // verus!
