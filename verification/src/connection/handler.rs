use vstd::prelude::*;
use std::collections::HashMap;
use crate::error::XcelerateError;
use crate::connection::client::is_envelope;
use crate::json::Json;

verus! {

broadcast use vstd::std_specs::hash::group_hash_axioms;

/// The id of the command that a message answers: its `id` member when that
/// is a non-negative integer, truncated to 32 bits.
pub open spec fn reply_key(message: Json) -> Option<u32> {
    match message.at("id"@).u64_value() {
        Some(n) => Some(n as u32),
        None => None,
    }
}

/// A reply reports a failure when its `error` member is present and not null.
pub open spec fn reports_error(message: Json) -> bool {
    !(message.at("error"@) is Null)
}

/// The code of a failure reply: the `error.code` member as a 64-bit integer,
/// 0 when it is absent or not one, truncated to 32 bits.
pub open spec fn error_code(message: Json) -> i32 {
    match message.at("error"@).at("code"@).i64_value() {
        Some(c) => c as i32,
        None => 0,
    }
}

/// The text of a failure reply: the `error.message` member, or "Unknown"
/// when it is absent or not a string.
pub open spec fn error_text(message: Json) -> Seq<char> {
    match message.at("error"@).at("message"@).str_value() {
        Some(m) => m,
        None => "Unknown"@,
    }
}

/// A message that answers no command is an event when its `method` member
/// is a string.
pub open spec fn is_event(message: Json) -> bool {
    reply_key(message) is None && message.at("method"@) is Text
}

/// What a reply hands to the waiting command: the `result` member, or the
/// failure that the reply reports.
pub open spec fn is_reply_outcome(message: Json, outcome: Result<Json, XcelerateError>) -> bool {
    if reports_error(message) {
        outcome matches Err(XcelerateError::CdpResponseError { code, message: text })
            && code == error_code(message) && text@ == error_text(message)
    } else {
        outcome == Ok::<Json, XcelerateError>(message.at("result"@))
    }
}

/// The waiters after `message` was routed: the waiter of the command it
/// answers leaves the table.
pub open spec fn pending_after<T>(pending: Map<u32, T>, message: Json) -> Map<u32, T> {
    match reply_key(message) {
        Some(k) => pending.remove(k),
        None => pending,
    }
}

/// The waiter that `message` is delivered to, if any.
pub open spec fn recipient<T>(pending: Map<u32, T>, message: Json) -> Option<T> {
    match reply_key(message) {
        Some(k) => if pending.contains_key(k) {
            Some(pending[k])
        } else {
            None
        },
        None => None,
    }
}

/// Where an incoming message goes.
pub enum Routed<T> {
    /// The answer to a pending command, for its waiter.
    Reply { waiter: T, outcome: Result<Json, XcelerateError> },
    /// A protocol event, for the subscribers.
    Event(Json),
    /// Neither: an answer to no pending command, or a message that is
    /// neither answer nor event.
    Ignored,
}

/// The table of commands sent and not yet answered, each with the waiter
/// that receives its answer.
pub struct ReplyRouter<T> {
    pending: HashMap<u32, T>,
}

impl<T> View for ReplyRouter<T> {
    type V = Map<u32, T>;

    closed spec fn view(&self) -> Map<u32, T> {
        self.pending@
    }
}

impl<T> ReplyRouter<T> {
    /// A router with no pending command.
    pub fn new() -> (r: ReplyRouter<T>)
        ensures
            r@ == Map::<u32, T>::empty(),
    {
        ReplyRouter { pending: HashMap::new() }
    }

    /// Records that command `id` was sent and `waiter` awaits its answer; a
    /// waiter already recorded for `id` is replaced.
    pub fn expect(&mut self, id: u32, waiter: T)
        ensures
            final(self)@ == old(self)@.insert(id, waiter),
    {
        self.pending.insert(id, waiter);
    }

    /// Whether command `id` awaits an answer.
    pub fn is_pending(&self, id: u32) -> (r: bool)
        ensures
            r == self@.contains_key(id),
    {
        self.pending.contains_key(&id)
    }

    /// The number of commands awaiting an answer.
    pub fn pending_count(&self) -> (r: usize)
        ensures
            r == self@.len(),
    {
        self.pending.len()
    }

    /// Routes a message from the browser: an answer goes to the waiter of
    /// its command, which leaves the table; an event goes to the
    /// subscribers; anything else is dropped. A message without a
    /// non-negative integer `id` is an event exactly when its `method` is a
    /// string, whatever other members (such as `sessionId`) it carries.
    pub fn route(&mut self, message: Json) -> (r: Routed<T>)
        ensures
            final(self)@ == pending_after(old(self)@, message),
            match recipient(old(self)@, message) {
                Some(w) => r matches Routed::Reply { waiter, outcome } && waiter == w
                    && is_reply_outcome(message, outcome),
                None => if is_event(message) {
                    r == Routed::<T>::Event(message)
                } else {
                    r is Ignored
                },
            },
            message.at("id"@).u64_value() is None ==> if message.at("method"@) is Text {
                r == Routed::<T>::Event(message)
            } else {
                r is Ignored
            },
    {
        let id = match message.lookup("id") {
            Some(v) => v.as_u64(),
            None => None,
        };
        match id {
            Some(n) => {
                let key = n as u32;
                match self.pending.remove(&key) {
                    Some(waiter) => {
                        let outcome = reply_outcome(message);
                        Routed::Reply { waiter, outcome }
                    },
                    None => Routed::Ignored,
                }
            },
            None => {
                let is_event = match message.lookup("method") {
                    Some(m) => m.is_string(),
                    None => false,
                };
                if is_event {
                    Routed::Event(message)
                } else {
                    Routed::Ignored
                }
            },
        }
    }
}

/// The outcome that a reply hands to its waiter.
pub fn reply_outcome(message: Json) -> (r: Result<Json, XcelerateError>)
    ensures
        is_reply_outcome(message, r),
{
    let failed = match message.lookup("error") {
        Some(e) => !e.is_null(),
        None => false,
    };
    if failed {
        let (code, text) = match message.lookup("error") {
            Some(e) => {
                let code: i32 = match e.lookup("code") {
                    Some(c) => match c.as_i64() {
                        Some(c) => c as i32,
                        None => 0,
                    },
                    None => 0,
                };
                let text = match e.lookup("message") {
                    Some(m) => match m.as_str() {
                        Some(m) => m.to_owned(),
                        None => "Unknown".to_owned(),
                    },
                    None => "Unknown".to_owned(),
                };
                (code, text)
            },
            None => (0, "Unknown".to_owned()),
        };
        Err(XcelerateError::CdpResponseError { code, message: text })
    } else {
        Ok(message.take("result"))
    }
}

/// A waiter recorded for command `id` receives the first answer to `id`.
pub proof fn lemma_answer_reaches_waiter<T>(pending: Map<u32, T>, id: u32, waiter: T, message: Json)
    requires
        reply_key(message) == Some(id),
    ensures
        recipient(pending.insert(id, waiter), message) == Some(waiter),
{
}

/// An answer that echoes the id of a command's envelope is routed to the
/// waiter recorded under that id: the id survives the round trip through
/// the 32-bit table key.
pub proof fn lemma_echoed_id_reaches_waiter<T>(
    pending: Map<u32, T>,
    sent: Json,
    id: u32,
    method: Seq<char>,
    params: Json,
    session_id: Option<Seq<char>>,
    waiter: T,
    answer: Json,
)
    requires
        is_envelope(sent, id, method, params, session_id),
        answer.at("id"@) == sent.at("id"@),
    ensures
        reply_key(answer) == Some(id),
        recipient(pending.insert(id, waiter), answer) == Some(waiter),
{
}

/// An answer is delivered at most once: once routed, a second answer to the
/// same command reaches nobody.
pub proof fn lemma_answer_delivered_once<T>(pending: Map<u32, T>, first: Json, second: Json)
    requires
        reply_key(first) is Some,
        reply_key(second) == reply_key(first),
    ensures
        recipient(pending_after(pending, first), second) is None,
{
}

/// Routing a message leaves the waiters of every other command in place.
pub proof fn lemma_other_waiters_kept<T>(pending: Map<u32, T>, message: Json, id: u32)
    requires
        pending.contains_key(id),
        reply_key(message) != Some(id),
    ensures
        pending_after(pending, message).contains_key(id),
        pending_after(pending, message)[id] == pending[id],
{
}

/// A message is an event exactly when its `id` is not a non-negative
/// integer and its `method` is a string.
pub proof fn lemma_event_classification(message: Json)
    ensures
        is_event(message) <==> (message.at("id"@).u64_value() is None && message.at("method"@) is Text),
{
}

/// Whether a message is an event depends on its `id` and `method` alone:
/// two messages that agree on those are both events or both not, whatever
/// else (a `sessionId`, `params`) either carries.
pub proof fn lemma_event_ignores_other_members(first: Json, second: Json)
    requires
        first.at("id"@) == second.at("id"@),
        first.at("method"@) == second.at("method"@),
    ensures
        is_event(first) == is_event(second),
{
}

/// A message that carries a command id is never taken for an event.
pub proof fn lemma_answers_are_not_events(message: Json)
    requires
        reply_key(message) is Some,
    ensures
        !is_event(message),
{
}

} // verus!
