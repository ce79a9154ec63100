//! Client runtime for the line-delimited JSON-RPC conversation between a
//! plugin and its host: an envelope codec, a correlation engine that issues
//! request ids and resolves replies exactly once, and the message types.
//!
//! The engine is a plain value mutated through `&mut`: whoever runs it
//! concurrently shares it behind a lock, so that allocation, registration,
//! completion and cancellation each happen atomically.
use vstd::prelude::*;

pub mod api;
pub mod codec;
pub mod events;
pub mod json;
pub mod pending;
pub mod resources;
pub mod rpc;

use crate::codec::{decode, decoded};
use crate::json::Json;
use crate::pending::{
    table_clear, table_contains, table_ids, table_insert, table_new, table_remove, try_receive,
    Received, Table,
};
use crate::rpc::{version_text, Message, RequestId, Response};
use tokio::sync::oneshot::{Receiver, Sender};

verus! {

/// How long a bounded wait lasts before it resolves to a timeout, in seconds.
pub const DEFAULT_TIMEOUT_SECS: u64 = 15;

/// Why a request did not produce a value.
#[derive(Debug, PartialEq)]
pub enum ResponseError {
    /// The host answered with an error object.
    Rpc(rpc::Error),
    /// The entry was dropped without an answer: the transport closed, or the
    /// engine went away.
    Recv,
    /// No answer came within the bounded wait; the entry has been removed.
    Timeout,
}

/// The outcome of a request once its reply is in: the reply's error when it
/// carries one, its result otherwise.
pub open spec fn outcome_of(received: Option<Response>) -> Result<Option<Json>, ResponseError> {
    match received {
        None => Err(ResponseError::Recv),
        Some(r) => match r.error {
            Some(e) => Err(ResponseError::Rpc(e)),
            None => Ok(r.result),
        },
    }
}

/// The caller's handle on one outgoing request: it resolves when the reply is
/// delivered to it.
pub struct ResponseAwaiter {
    id: RequestId,
    rx: Receiver<Response>,
}

impl ResponseAwaiter {
    /// The id of the request this awaits.
    pub closed spec fn spec_id(&self) -> RequestId {
        self.id
    }

    /// The id of the request this awaits.
    pub fn id(&self) -> (r: &RequestId)
        ensures
            *r == self.spec_id(),
    {
        &self.id
    }

    /// The receiving half, for waiting on the reply asynchronously; pass what
    /// it yields to `outcome`.
    pub fn into_receiver(self) -> Receiver<Response> {
        self.rx
    }

    /// Maps a delivered reply (or `None`, when its sender was dropped) to the
    /// request's outcome.
    pub fn outcome(received: Option<Response>) -> (r: Result<Option<Json>, ResponseError>)
        ensures
            r == outcome_of(received),
    {
        match received {
            None => Err(ResponseError::Recv),
            Some(r) => match r.error {
                Some(e) => Err(ResponseError::Rpc(e)),
                None => Ok(r.result),
            },
        }
    }

    /// Looks at the awaiter without waiting: `None` while the reply is still
    /// outstanding, else the outcome.
    pub fn poll(&mut self) -> (r: Option<Result<Option<Json>, ResponseError>>)
        ensures
            final(self).spec_id() == old(self).spec_id(),
            r matches Some(o) ==> exists|received: Option<Response>| o == outcome_of(received),
    {
        match try_receive(&mut self.rx) {
            Received::Waiting => None,
            Received::Closed => {
                let o = ResponseAwaiter::outcome(None);
                assert(o == outcome_of(None));
                Some(o)
            },
            Received::Value(v) => {
                let ghost received = Some(v);
                let o = ResponseAwaiter::outcome(Some(v));
                assert(o == outcome_of(received));
                Some(o)
            },
        }
    }
}

/// What the engine did with one line of input.
#[derive(Debug, PartialEq)]
pub enum Routed {
    /// The line framed no message; nothing changed.
    Skipped,
    /// A reply completed the pending request with this id.
    Resolved(i32),
    /// A reply matched no pending request (late, duplicate or unknown); it
    /// was dropped and nothing changed.
    Dropped,
    /// A request or notification from the host, to be handed to the
    /// application in the order read.
    Event(Message),
}

/// What routing a decoded message does, given the pending ids.
pub open spec fn routed(pending: Set<i32>, message: Option<Message>) -> Routed {
    match message {
        None => Routed::Skipped,
        Some(Message::Response { id: RequestId::Int(i), .. }) => if pending.contains(i) {
            Routed::Resolved(i)
        } else {
            Routed::Dropped
        },
        Some(Message::Response { .. }) => Routed::Dropped,
        Some(m) => Routed::Event(m),
    }
}

/// The pending ids after routing a decoded message: a reply takes out the
/// entry of its id; nothing else changes the table.
pub open spec fn pending_after(pending: Set<i32>, message: Option<Message>) -> Set<i32> {
    match message {
        Some(Message::Response { id: RequestId::Int(i), .. }) => pending.remove(i),
        _ => pending,
    }
}

/// A reply whose request is no longer pending (it timed out, was cancelled,
/// or was already answered) is dropped: no entry is completed and the table
/// is unchanged.
pub proof fn lemma_late_reply_is_inert(pending: Set<i32>, reply: Message)
    requires
        reply is Response,
        !(reply->Response_id matches RequestId::Int(i) && pending.contains(i)),
    ensures
        routed(pending, Some(reply)) == Routed::Dropped,
        pending_after(pending, Some(reply)) == pending,
{
    if let Message::Response { id: RequestId::Int(i), .. } = reply {
        assert(pending.remove(i) =~= pending);
    }
}

/// Replies resolve requests independently of the order they were issued
/// in: a reply for `b` resolves `b` alone, and `a` stays pending.
pub proof fn lemma_replies_resolve_independently(pending: Set<i32>, a: i32, b: i32, reply: Message)
    requires
        pending.contains(a),
        pending.contains(b),
        a != b,
        reply matches Message::Response { id: RequestId::Int(i), .. } && i == b,
    ensures
        routed(pending, Some(reply)) == Routed::Resolved(b),
        pending_after(pending, Some(reply)).contains(a),
        !pending_after(pending, Some(reply)).contains(b),
{
}

/// The method a request or notification calls.
pub open spec fn method_of(m: Message) -> Seq<char> {
    match m {
        Message::Request { method, .. } => method@,
        Message::Notification { method, .. } => method@,
        Message::Response { .. } => Seq::empty(),
    }
}

/// The parameters of a request or notification.
pub open spec fn params_of(m: Message) -> Option<Json> {
    match m {
        Message::Request { params, .. } => params,
        Message::Notification { params, .. } => params,
        Message::Response { .. } => None,
    }
}

/// `r` is what issuing a request for `method` gives on an engine that goes
/// from `before` to `after`: the next id, which no earlier request got and
/// which is not pending, becomes pending and is carried by both the request
/// message and its awaiter; `None`, with nothing changed, once every negative
/// `i32` has been issued.
pub open spec fn issues(
    before: Omegga,
    after: Omegga,
    r: Option<(Message, ResponseAwaiter)>,
    method: Seq<char>,
) -> bool {
    let id = before.next_id();
    &&& r is None <==> id == i32::MIN
    &&& r is None ==> after.pending() == before.pending() && after.next_id() == id
    &&& r matches Some((m, a)) ==> {
        &&& !before.issued().contains(id)
        &&& !before.pending().contains(id)
        &&& after.issued() == before.issued().insert(id)
        &&& after.next_id() == id - 1
        &&& after.pending() == before.pending().insert(id)
        &&& a.spec_id() == RequestId::Int(id)
        &&& m matches Message::Request { jsonrpc, id: mid, .. } && jsonrpc@ == version_text() && mid
            == RequestId::Int(id)
        &&& method_of(m) == method
    }
}

/// `m` is a notification of `method`, tagged with the protocol version.
pub open spec fn notifies(m: Message, method: Seq<char>) -> bool {
    m matches Message::Notification { jsonrpc, .. } && jsonrpc@ == version_text() && method_of(m)
        == method
}

/// `j` is an object whose members are exactly `members`, in that order.
pub open spec fn object_of(j: Option<Json>, members: Seq<(Seq<char>, Json)>) -> bool {
    j matches Some(Json::Object(ms)) && ms@.len() == members.len() && forall|i: int|
        0 <= i < members.len() ==> #[trigger] ms@[i].0@ == members[i].0 && ms@[i].1 == members[i].1
}

/// Resolution is exactly-once: once a reply has resolved `i`, another reply
/// for `i` is dropped.
pub proof fn lemma_resolves_once(pending: Set<i32>, first: Message, second: Message, i: i32)
    requires
        pending.contains(i),
        first matches Message::Response { id: RequestId::Int(a), .. } && a == i,
        second matches Message::Response { id: RequestId::Int(b), .. } && b == i,
    ensures
        routed(pending, Some(first)) == Routed::Resolved(i),
        routed(pending_after(pending, Some(first)), Some(second)) == Routed::Dropped,
{
}

/// One step of a run of the engine: either a request was issued, or an
/// operation that issues no id (routing, cancelling, timing out, closing)
/// left the next id as it was.
pub open spec fn run_step(
    before: Omegga,
    after: Omegga,
    r: Option<(Message, ResponseAwaiter)>,
    method: Seq<char>,
) -> bool {
    issues(before, after, r, method) || (r is None && after.next_id() == before.next_id())
}

proof fn lemma_next_id_falls(
    states: Seq<Omegga>,
    results: Seq<Option<(Message, ResponseAwaiter)>>,
    methods: Seq<Seq<char>>,
    i: int,
    j: int,
)
    requires
        states.len() == results.len() + 1,
        methods.len() == results.len(),
        forall|k: int| 0 <= k < results.len() ==> run_step(#[trigger] states[k], states[k + 1], results[k], methods[k]),
        0 <= i < j <= results.len(),
    ensures
        states[j].next_id() <= states[i].next_id(),
        results[i] is Some ==> states[j].next_id() < states[i].next_id(),
    decreases j - i,
{
    assert(run_step(states[i], states[i + 1], results[i], methods[i]));
    if j > i + 1 {
        lemma_next_id_falls(states, results, methods, i + 1, j);
    }
}

/// Request ids are unique over a run: along any sequence of engine steps, in
/// which requests may be interleaved with replies, cancellations and
/// timeouts, no two issued requests carry the same id.
pub proof fn lemma_ids_unique(
    states: Seq<Omegga>,
    results: Seq<Option<(Message, ResponseAwaiter)>>,
    methods: Seq<Seq<char>>,
)
    requires
        states.len() == results.len() + 1,
        methods.len() == results.len(),
        forall|k: int| 0 <= k < results.len() ==> run_step(#[trigger] states[k], states[k + 1], results[k], methods[k]),
    ensures
        forall|i: int, j: int|
            0 <= i < j < results.len() && #[trigger] results[i] is Some && #[trigger] results[j] is Some
                ==> (results[i]->0).1.spec_id() != (results[j]->0).1.spec_id(),
{
    assert forall|i: int, j: int|
        0 <= i < j < results.len() && #[trigger] results[i] is Some && #[trigger] results[j] is Some
            implies (results[i]->0).1.spec_id() != (results[j]->0).1.spec_id() by {
        assert(run_step(states[i], states[i + 1], results[i], methods[i]));
        assert(run_step(states[j], states[j + 1], results[j], methods[j]));
        lemma_next_id_falls(states, results, methods, i, j);
    }
}

/// The reply that a decoded message carries, if it is one.
pub open spec fn reply_of(message: Option<Message>) -> Option<Response> {
    match message {
        Some(Message::Response { id, result, error, .. }) => Some(Response { id, result, error }),
        _ => None,
    }
}

/// A reply taken out of the pending table with the sender of its awaiter.
pub struct Delivery {
    tx: Sender<Response>,
    reply: Response,
}

impl Delivery {
    /// The reply this hands over.
    pub closed spec fn reply(&self) -> Response {
        self.reply
    }

    /// Hands the reply to the awaiter; nothing happens if the awaiter is gone.
    pub fn deliver(self) {
        let _ = self.tx.send(self.reply);
    }
}

/// The correlation engine: it issues ids for outgoing requests and keeps the
/// pending table that replies are matched against.
pub struct Omegga {
    awaiter_txs: Table,
    request_id: i32,
}

impl Omegga {
    /// The id that the next request will get.
    pub closed spec fn next_id(&self) -> i32 {
        self.request_id
    }

    /// The ids of the requests awaiting a reply.
    pub closed spec fn pending(&self) -> Set<i32> {
        table_ids(self.awaiter_txs)
    }

    /// The ids issued so far: they run down from -1, so each is negative and
    /// above the next one.
    pub open spec fn issued(&self) -> Set<i32> {
        Set::new(|i: i32| self.next_id() < i && i < 0)
    }

    /// Every pending id has been issued, so the next id is never pending.
    pub closed spec fn wf(&self) -> bool {
        &&& self.request_id < 0
        &&& forall|i: i32| #[trigger] table_ids(self.awaiter_txs).contains(i) ==> self.request_id < i && i < 0
    }

    /// A fresh engine: nothing pending, the first id is -1.
    pub fn new() -> (r: Omegga)
        ensures
            r.wf(),
            r.pending() == Set::<i32>::empty(),
            r.next_id() == -1,
            r.issued() == Set::<i32>::empty(),
    {
        let r = Omegga { awaiter_txs: table_new(), request_id: -1 };
        assert(r.issued() =~= Set::<i32>::empty());
        r
    }

    /// Whether the request with this id still awaits its reply.
    pub fn is_pending(&self, id: &RequestId) -> (r: bool)
        ensures
            r == (*id matches RequestId::Int(i) && self.pending().contains(i)),
    {
        match id {
            RequestId::Int(i) => table_contains(&self.awaiter_txs, *i),
            RequestId::Str(_) => false,
        }
    }

    /// Issues a request: takes the next id, registers its pending entry, and
    /// returns the message to write together with the awaiter. The entry
    /// exists before the message can be written, so a reply cannot outrun it.
    /// `None`, with nothing changed, once every negative `i32` has been
    /// issued.
    pub fn request(&mut self, method: String, params: Option<Json>) -> (r: Option<(Message, ResponseAwaiter)>)
        requires
            old(self).wf(),
        ensures
            final(self).wf(),
            issues(*old(self), *final(self), r, method@),
            r matches Some((m, _)) ==> params_of(m) == params,
    {
        if self.request_id == i32::MIN {
            return None;
        }
        let id = self.request_id;
        let (tx, rx) = tokio::sync::oneshot::channel::<Response>();
        table_insert(&mut self.awaiter_txs, id, tx);
        self.request_id = id - 1;
        let message = Message::request(RequestId::Int(id), method, params);
        proof {
            assert(self.issued() =~= old(self).issued().insert(id));
        }
        Some((message, ResponseAwaiter { id: RequestId::Int(id), rx }))
    }

    /// Removes the pending entry of `id`, if any, so that a later reply is
    /// dropped; its awaiter then resolves to `ResponseError::Recv`. Returns
    /// whether there was an entry.
    pub fn cancel(&mut self, id: &RequestId) -> (r: bool)
        requires
            old(self).wf(),
        ensures
            final(self).wf(),
            final(self).next_id() == old(self).next_id(),
            r == (*id matches RequestId::Int(i) && old(self).pending().contains(i)),
            *id matches RequestId::Int(i) ==> final(self).pending() == old(self).pending().remove(i),
            *id is Str ==> final(self).pending() == old(self).pending(),
    {
        match id {
            RequestId::Int(i) => {
                let tx = table_remove(&mut self.awaiter_txs, *i);
                tx.is_some()
            },
            RequestId::Str(_) => false,
        }
    }

    /// Ends a bounded wait that ran out: removes the entry of `id`, so that a
    /// late reply is dropped, and gives the timeout outcome.
    pub fn time_out(&mut self, id: &RequestId) -> (r: ResponseError)
        requires
            old(self).wf(),
        ensures
            final(self).wf(),
            r == ResponseError::Timeout,
            final(self).next_id() == old(self).next_id(),
            *id matches RequestId::Int(i) ==> final(self).pending() == old(self).pending().remove(i),
            *id is Str ==> final(self).pending() == old(self).pending(),
            *id matches RequestId::Int(i) ==> !final(self).pending().contains(i),
    {
        self.cancel(id);
        ResponseError::Timeout
    }

    /// The input has ended: drops every pending entry, so that each waiting
    /// awaiter resolves to `ResponseError::Recv` instead of waiting forever.
    pub fn close(&mut self)
        requires
            old(self).wf(),
        ensures
            final(self).wf(),
            final(self).pending() == Set::<i32>::empty(),
            final(self).next_id() == old(self).next_id(),
    {
        table_clear(&mut self.awaiter_txs);
    }

    /// Routes one decoded message (`None`: the line framed none). A reply
    /// takes out the pending entry of its id and comes back as the delivery
    /// that hands it, unchanged, to that awaiter; a reply that matches no
    /// entry is dropped; any other message is an event for the application.
    pub fn route(&mut self, message: Option<Message>) -> (r: (Routed, Option<Delivery>))
        requires
            old(self).wf(),
        ensures
            final(self).wf(),
            final(self).next_id() == old(self).next_id(),
            r.0 == routed(old(self).pending(), message),
            final(self).pending() == pending_after(old(self).pending(), message),
            r.1 is Some <==> r.0 is Resolved,
            r.1 matches Some(d) ==> reply_of(message) == Some(d.reply()),
    {
        match message {
            None => (Routed::Skipped, None),
            Some(Message::Response { id, result, error, .. }) => match id {
                RequestId::Int(i) => match table_remove(&mut self.awaiter_txs, i) {
                    Some(tx) => {
                        let reply = Response { id: RequestId::Int(i), result, error };
                        (Routed::Resolved(i), Some(Delivery { tx, reply }))
                    },
                    None => (Routed::Dropped, None),
                },
                RequestId::Str(_) => (Routed::Dropped, None),
            },
            Some(m) => (Routed::Event(m), None),
        }
    }

    /// Reads one line of input: decodes it and routes the message, skipping
    /// a line that frames none.
    pub fn handle_line(&mut self, line: &str) -> (r: Routed)
        requires
            old(self).wf(),
        ensures
            final(self).wf(),
            final(self).next_id() == old(self).next_id(),
            r == routed(old(self).pending(), decoded(line@)),
            final(self).pending() == pending_after(old(self).pending(), decoded(line@)),
            r matches Routed::Event(m) ==> m.valid(),
    {
        let message = decode(line);
        let (routed, delivery) = self.route(message);
        if let Some(d) = delivery {
            d.deliver();
        }
        routed
    }
}

impl Default for Omegga {
    fn default() -> (r: Omegga)
        ensures
            r.wf(),
            r.pending() == Set::<i32>::empty(),
            r.next_id() == -1,
    {
        Omegga::new()
    }
}

} // verus!
