//! The request/response discipline of the sidecar's line protocol: every
//! request carries a fresh id, and replies are matched to it.

use vstd::prelude::*;
use crate::text::push_str;

verus! {

/// The source of request ids: each id is handed out once, in increasing
/// order, starting at 1.
#[derive(Debug)]
pub struct RequestIds {
    /// The id the next request gets.
    pub next: u64,
}

impl RequestIds {
    /// Ids starting at 1.
    pub fn new() -> (ids: RequestIds)
        ensures
            ids.next == 1,
    {
        RequestIds { next: 1 }
    }

    /// Hands out the next id.
    pub fn take(&mut self) -> (id: u64)
        requires
            old(self).next < u64::MAX,
        ensures
            id == old(self).next,
            final(self).next == old(self).next + 1,
    {
        let id = self.next;
        self.next = self.next + 1;
        id
    }
}

/// What to do with one reply line that parsed.
#[derive(Debug, Clone, PartialEq)]
pub enum ReplyVerdict {
    /// Another request's reply (or stray output): keep reading.
    Skip,
    /// The answer to our request.
    Accept,
    /// Our request was refused, with this message.
    Refused(String),
}

/// The reply rule: a reply with another id is skipped; ours is accepted when
/// `ok`, else refused with its error message (or a stock one).
pub open spec fn verdict_is(v: ReplyVerdict, expected: u64, id: u64, ok: bool, error: Option<String>) -> bool {
    if id != expected {
        v == ReplyVerdict::Skip
    } else if ok {
        v == ReplyVerdict::Accept
    } else {
        v matches ReplyVerdict::Refused(m) && m@ == (match error {
            Some(e) => e@,
            None => "sidecar returned ok:false with no error message"@,
        })
    }
}

/// Judges one parsed reply against the id of the request in flight.
pub fn judge_reply(expected: u64, id: u64, ok: bool, error: Option<String>) -> (v: ReplyVerdict)
    ensures
        verdict_is(v, expected, id, ok, error),
{
    if id != expected {
        ReplyVerdict::Skip
    } else if ok {
        ReplyVerdict::Accept
    } else {
        match error {
            Some(e) => ReplyVerdict::Refused(e),
            None => {
                let mut m = String::new();
                push_str(&mut m, "sidecar returned ok:false with no error message");
                ReplyVerdict::Refused(m)
            },
        }
    }
}

} // verus!
