//! The receive loop: each inbound update is classified and answered by one
//! action, in arrival order.

use vstd::prelude::*;
use crate::keepalive::{reply_to, respond};
use crate::protocol::{Action, ActionView, Update};

verus! {

/// The action that answers one update on a stream of the given endpoint.
pub open spec fn reaction<T>(update: Update<T>, endpoint: Seq<char>) -> ActionView<T> {
    match update {
        Update::Transaction(payload) => ActionView::Deliver { payload, endpoint },
        _ => match reply_to(update) {
            Some(ack) => ActionView::Acknowledge(ack),
            None => ActionView::Receive,
        },
    }
}

/// The actions that answer a run of updates, one for one.
pub open spec fn reactions<T>(updates: Seq<Update<T>>, endpoint: Seq<char>) -> Seq<ActionView<T>> {
    Seq::new(updates.len(), |i: int| reaction(updates[i], endpoint))
}

/// The views of a run of actions.
pub open spec fn views<T>(actions: Seq<Action<T>>) -> Seq<ActionView<T>> {
    Seq::new(actions.len(), |i: int| actions[i]@)
}

/// Classifies one update: a transaction goes to the handler, tagged with
/// the endpoint; a heartbeat frame is acknowledged; anything else is passed
/// over.
pub fn dispatch<T>(update: Update<T>, endpoint: &str) -> (action: Action<T>)
    ensures
        action@ == reaction(update, endpoint@),
{
    match update {
        Update::Transaction(payload) => Action::Deliver { payload, endpoint: endpoint.to_owned() },
        other => match respond(&other) {
            Some(ack) => Action::Acknowledge(ack),
            None => Action::Receive,
        },
    }
}

/// Classifies a run of updates in arrival order.
pub fn dispatch_all<T>(updates: Vec<Update<T>>, endpoint: &str) -> (actions: Vec<Action<T>>)
    ensures
        views(actions@) == reactions(updates@, endpoint@),
{
    let mut actions: Vec<Action<T>> = Vec::new();
    for update in it: updates.into_iter()
        invariant
            actions@.len() == it.index(),
            it.seq() == updates@,
            forall|i: int| 0 <= i < actions@.len() ==> (#[trigger] actions@[i])@ == reaction(updates@[i], endpoint@),
    {
        actions.push(dispatch(update, endpoint));
    }
    assert(views(actions@) =~= reactions(updates@, endpoint@));
    actions
}

} // verus!
