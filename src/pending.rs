//! The pending table: for each request id still awaiting its reply, the
//! one-shot sender that completes the caller's awaiter.
//!
//! `DashMap` takes `&self` even where it changes; the table is touched only
//! through `&mut` here, so that each call's effect on the ids it holds is
//! stated, and every access is exclusive.
use vstd::prelude::*;

use crate::rpc::Response;
use dashmap::DashMap;
use tokio::sync::oneshot::{Receiver, Sender};

verus! {

#[verifier::external_type_specification]
#[verifier::external_body]
#[verifier::reject_recursive_types(K)]
#[verifier::reject_recursive_types(V)]
#[verifier::reject_recursive_types(S)]
pub struct ExDashMap<K, V, S>(DashMap<K, V, S>);

#[verifier::external_type_specification]
#[verifier::external_body]
#[verifier::reject_recursive_types(T)]
pub struct ExSender<T>(Sender<T>);

#[verifier::external_type_specification]
#[verifier::external_body]
#[verifier::reject_recursive_types(T)]
pub struct ExReceiver<T>(Receiver<T>);

#[verifier::external_type_specification]
#[verifier::external_body]
pub struct ExRecvError(tokio::sync::oneshot::error::RecvError);

/// The concrete table type.
pub type Table = DashMap<i32, Sender<Response>>;

/// The ids that have an entry in a table.
pub uninterp spec fn table_ids(t: DashMap<i32, Sender<Response>>) -> Set<i32>;

/// Relies on `DashMap::new`: a map with no entries.
#[verifier::external_body]
pub(crate) fn table_new() -> (t: Table)
    ensures
        table_ids(t) == Set::<i32>::empty(),
{
    DashMap::new()
}

/// Relies on `DashMap::insert`: afterwards `id` has an entry, which holds `tx`;
/// no other entry changes.
#[verifier::external_body]
pub(crate) fn table_insert(t: &mut Table, id: i32, tx: Sender<Response>)
    ensures
        table_ids(*final(t)) == table_ids(*old(t)).insert(id),
{
    t.insert(id, tx);
}

/// Relies on `DashMap::remove`: takes out the entry of `id`, if there is one,
/// and hands back its value; no other entry changes.
#[verifier::external_body]
pub(crate) fn table_remove(t: &mut Table, id: i32) -> (r: Option<Sender<Response>>)
    ensures
        table_ids(*final(t)) == table_ids(*old(t)).remove(id),
        r is Some <==> table_ids(*old(t)).contains(id),
{
    t.remove(&id).map(|(_, tx)| tx)
}

/// Relies on `DashMap::contains_key`: whether `id` has an entry.
#[verifier::external_body]
pub(crate) fn table_contains(t: &Table, id: i32) -> (r: bool)
    ensures
        r == table_ids(*t).contains(id),
{
    t.contains_key(&id)
}

/// Relies on `DashMap::clear`: afterwards no id has an entry.
#[verifier::external_body]
pub(crate) fn table_clear(t: &mut Table)
    ensures
        table_ids(*final(t)) == Set::<i32>::empty(),
{
    t.clear();
}

/// Relies on tokio's `oneshot::channel`: a fresh sender and its receiver.
pub assume_specification<T>[ tokio::sync::oneshot::channel::<T> ]() -> (Sender<T>, Receiver<T>);

/// Relies on tokio's `oneshot::Sender::send`: the value comes back in `Err`
/// when the receiver is gone.
pub assume_specification<T>[ Sender::<T>::send ](tx: Sender<T>, t: T) -> (r: Result<(), T>)
    ensures
        r matches Err(v) ==> v == t,
;

/// What a receiver holds when it is looked at without waiting.
pub(crate) enum Received {
    /// Nothing yet; the sender is still held.
    Waiting,
    /// The sender was dropped without sending.
    Closed,
    /// The value sent.
    Value(Response),
}

/// Relies on tokio's `oneshot::Receiver::try_recv`: looks at the channel
/// without waiting, telling apart its two errors.
#[verifier::external_body]
pub(crate) fn try_receive(rx: &mut Receiver<Response>) -> (r: Received) {
    match rx.try_recv() {
        Ok(v) => Received::Value(v),
        Err(tokio::sync::oneshot::error::TryRecvError::Empty) => Received::Waiting,
        Err(tokio::sync::oneshot::error::TryRecvError::Closed) => Received::Closed,
    }
}

} // verus!
