//! The request-validation-and-dispatch pipeline.
//!
//! Each HTTP exchange is decided in two steps. First the request line and
//! headers are screened: anything but `POST /` is not found, a missing or
//! non-textual event header is a bad request, and a body whose declared size
//! exceeds the bound is rejected before it is read. Only then is the body
//! collected, the signature validated, and the event routed to the configured
//! commands; every matching command fires.

use vstd::prelude::*;
use vstd::string::*;

use crate::config::Command;
use crate::headers::{chars_of_bytes, header_lookup, header_text, spec_lookup, str_eq,
    visible_ascii, Header};
use crate::signature::{spec_validate, validate_request};

verus! {

/// Upper bound, in bytes, on an acceptable request body.
pub const BODY_LIMIT: u64 = 65536;

/// The verdict reached before the body is read.
pub enum Screen {
    /// The request is not `POST /`: reply not-found.
    NotFound,
    /// The event header is absent: reply bad-request.
    MissingEvent,
    /// The event header is not header text: reply bad-request.
    InvalidEventText,
    /// The declared body size exceeds the bound: reply payload-too-large.
    TooLarge,
    /// The request may proceed; the event name it names.
    ReadBody(String),
}

/// The declared body size: an absent bound counts as unbounded.
pub open spec fn spec_declared_size(size_upper: Option<u64>) -> u64 {
    match size_upper {
        Some(n) => n,
        None => u64::MAX,
    }
}

/// Screens a request before its body is read.
///
/// The event header is examined first, so a malformed request is rejected
/// cheaply; the size bound is checked before any buffering, so an oversized
/// body is never collected.
pub fn screen_request(
    method: &str,
    path: &str,
    headers: &Vec<Header>,
    size_upper: Option<u64>,
) -> (r: Screen)
    ensures
        (r is NotFound <==> !(method@ == "POST"@ && path@ == "/"@)),
        (r is MissingEvent <==> method@ == "POST"@ && path@ == "/"@
            && spec_lookup(headers@, "x-github-event"@) is None),
        (r is InvalidEventText <==> method@ == "POST"@ && path@ == "/"@
            && match spec_lookup(headers@, "x-github-event"@) {
                Some(v) => !visible_ascii(v),
                None => false,
            }),
        (r is TooLarge <==> method@ == "POST"@ && path@ == "/"@
            && match spec_lookup(headers@, "x-github-event"@) {
                Some(v) => visible_ascii(v) && spec_declared_size(size_upper) > BODY_LIMIT,
                None => false,
            }),
        (r is ReadBody <==> method@ == "POST"@ && path@ == "/"@
            && match spec_lookup(headers@, "x-github-event"@) {
                Some(v) => visible_ascii(v) && spec_declared_size(size_upper) <= BODY_LIMIT,
                None => false,
            }),
        r matches Screen::ReadBody(ev)
            ==> ev@ == chars_of_bytes(spec_lookup(headers@, "x-github-event"@)->Some_0),
{
    if !(str_eq(method, "POST") && str_eq(path, "/")) {
        return Screen::NotFound;
    }
    let v = match header_lookup(headers, "x-github-event") {
        Some(v) => v,
        None => {
            return Screen::MissingEvent;
        },
    };
    let event = match header_text(v) {
        Some(t) => t,
        None => {
            return Screen::InvalidEventText;
        },
    };
    let declared: u64 = match size_upper {
        Some(n) => n,
        None => u64::MAX,
    };
    if declared > BODY_LIMIT {
        return Screen::TooLarge;
    }
    Screen::ReadBody(event)
}

/// How many of the commands name this event.
pub open spec fn spec_match_count(commands: Seq<Command>, event: Seq<char>) -> int
    decreases commands.len(),
{
    if commands.len() == 0 {
        0
    } else {
        spec_match_count(commands.drop_last(), event)
            + if commands.last().event@ == event { 1int } else { 0int }
    }
}

/// Selects every command whose event name equals the given event, by index.
///
/// The result lists, in increasing order, exactly the indices of the matching
/// commands; its length is the number of matches.
pub fn matching_commands(commands: &Vec<Command>, event: &str) -> (r: Vec<usize>)
    ensures
        r@.len() == spec_match_count(commands@, event@),
        forall|k: int| 0 <= k < r@.len()
            ==> #[trigger] r@[k] < commands@.len()
                && commands@[r@[k] as int].event@ == event@,
        forall|k: int| 0 <= k && k + 1 < r@.len() ==> #[trigger] r@[k] < r@[k + 1],
        forall|j: int| 0 <= j < commands@.len() && #[trigger] commands@[j].event@ == event@
            ==> r@.contains(j as usize),
{
    let n = commands.len();
    let mut r: Vec<usize> = Vec::new();
    let mut i: usize = 0;
    while i < n
        invariant
            n == commands@.len(),
            i <= n,
            r@.len() == spec_match_count(commands@.take(i as int), event@),
            forall|k: int| 0 <= k < r@.len()
                ==> #[trigger] r@[k] < i && commands@[r@[k] as int].event@ == event@,
            forall|k: int| 0 <= k && k + 1 < r@.len() ==> #[trigger] r@[k] < r@[k + 1],
            forall|j: int| 0 <= j < i && #[trigger] commands@[j].event@ == event@
                ==> r@.contains(j as usize),
        decreases n - i,
    {
        proof {
            assert(commands@.take(i as int + 1).drop_last() =~= commands@.take(i as int));
            assert(commands@.take(i as int + 1).last() == commands@[i as int]);
        }
        if str_eq(commands[i].event.as_str(), event) {
            let ghost prev = r@;
            r.push(i);
            proof {
                assert(r@ == prev.push(i as usize));
                assert(forall|k: int| 0 <= k < prev.len()
                    ==> prev.push(i as usize)[k] == #[trigger] prev[k]);
                assert(prev.push(i as usize)[prev.len() as int] == i as usize);
                assert forall|j: int| 0 <= j <= i && #[trigger] commands@[j].event@ == event@
                    implies r@.contains(j as usize) by {
                    if j < i {
                        assert(prev.contains(j as usize));
                        let k = choose|k: int| 0 <= k < prev.len() && prev[k] == j as usize;
                        assert(r@[k] == j as usize);
                    } else {
                        assert(r@[prev.len() as int] == i as usize);
                    }
                }
                assert forall|k: int| 0 <= k && k + 1 < r@.len() implies #[trigger] r@[k]
                    < r@[k + 1] by {
                    if k + 1 < prev.len() {
                        assert(r@[k] == prev[k]);
                        assert(r@[k + 1] == prev[k + 1]);
                    } else {
                        assert(r@[k] == prev[k]);
                        assert(r@[k + 1] == i as usize);
                    }
                }
            }
        }
        i += 1;
    }
    proof {
        assert(commands@.take(n as int) =~= commands@);
    }
    r
}

/// The verdict reached once the body has been read.
pub enum Routed {
    /// The signature is missing or invalid: reply bad-request.
    BadSignature,
    /// The request is authentic; the indices of the commands to dispatch.
    Accepted(Vec<usize>),
}

/// Validates the signature and routes the event.
///
/// The signature is checked strictly before any routing decision; an
/// authentic request yields exactly the matching commands, and an event that
/// matches no command is still accepted.
pub fn authorize_and_route(
    secret: &String,
    headers: &Vec<Header>,
    body: &[u8],
    event: &str,
    commands: &Vec<Command>,
) -> (r: Routed)
    ensures
        (r is BadSignature <==> !spec_validate(secret@, headers@, body@)),
        r matches Routed::Accepted(idx) ==> {
            &&& idx@.len() == spec_match_count(commands@, event@)
            &&& forall|k: int| 0 <= k < idx@.len()
                ==> #[trigger] idx@[k] < commands@.len()
                    && commands@[idx@[k] as int].event@ == event@
            &&& forall|k: int| 0 <= k && k + 1 < idx@.len() ==> #[trigger] idx@[k] < idx@[k + 1]
            &&& forall|j: int| 0 <= j < commands@.len()
                && #[trigger] commands@[j].event@ == event@ ==> idx@.contains(j as usize)
        },
{
    if !validate_request(secret, headers, body) {
        return Routed::BadSignature;
    }
    Routed::Accepted(matching_commands(commands, event))
}

/// The HTTP status code a screening verdict is answered with.
pub fn screen_status(r: &Screen) -> (s: u16)
    requires
        !(r is ReadBody),
    ensures
        r is NotFound ==> s == 404,
        r is MissingEvent ==> s == 400,
        r is InvalidEventText ==> s == 400,
        r is TooLarge ==> s == 413,
{
    match r {
        Screen::NotFound => 404,
        Screen::MissingEvent => 400,
        Screen::InvalidEventText => 400,
        Screen::TooLarge => 413,
        Screen::ReadBody(_) => 204,
    }
}

/// The message body a screening verdict is answered with.
pub fn screen_message(r: &Screen) -> (m: String)
    requires
        !(r is ReadBody),
    ensures
        r is NotFound ==> m@ == Seq::<char>::empty(),
        r is MissingEvent ==> m@ == "Missing header: X-GitHub-Event"@,
        r is InvalidEventText ==> m@ == "Invalid ASCII in header: X-GitHub-Event"@,
        r is TooLarge ==> m@ == "Body too big"@,
{
    match r {
        Screen::NotFound => String::new(),
        Screen::MissingEvent => String::from_str("Missing header: X-GitHub-Event"),
        Screen::InvalidEventText => String::from_str("Invalid ASCII in header: X-GitHub-Event"),
        Screen::TooLarge => String::from_str("Body too big"),
        Screen::ReadBody(_) => String::new(),
    }
}

/// The HTTP status code a routing verdict is answered with: bad-request for a
/// bad signature, no-content for an accepted request, whether or not any
/// command matched.
pub fn routed_status(r: &Routed) -> (s: u16)
    ensures
        r is BadSignature ==> s == 400,
        r is Accepted ==> s == 204,
{
    match r {
        Routed::BadSignature => 400,
        Routed::Accepted(_) => 204,
    }
}

/// The message body a routing verdict is answered with.
pub fn routed_message(r: &Routed) -> (m: String)
    ensures
        r is BadSignature ==> m@ == "Missing or invalid signature"@,
        r is Accepted ==> m@ == Seq::<char>::empty(),
{
    match r {
        Routed::BadSignature => String::from_str("Missing or invalid signature"),
        Routed::Accepted(_) => String::new(),
    }
}

} // verus!
