//! What holds of the manager and of the receive loop, whatever the inputs.

use vstd::math::min;
use vstd::prelude::*;
use crate::backoff::{backoff_multiple, BACKOFF_CAP};
use crate::keepalive::HEARTBEAT_ACK_ID;
use crate::manager::ManagerState;
use crate::protocol::{ActionView, Event, HeartbeatAck, ManagerError, Phase, StreamTask, Update};
use crate::receive::{reaction, reactions};

verus! {

/// The transaction payloads of a run of updates, in arrival order.
pub open spec fn payloads<T>(updates: Seq<Update<T>>) -> Seq<T>
    decreases updates.len(),
{
    if updates.len() == 0 {
        Seq::empty()
    } else {
        let earlier = payloads(updates.drop_last());
        match updates.last() {
            Update::Transaction(payload) => earlier.push(payload),
            _ => earlier,
        }
    }
}

/// What a run of actions hands to the handler, in order: each payload with
/// the endpoint that tags it.
pub open spec fn deliveries<T>(actions: Seq<ActionView<T>>) -> Seq<(T, Seq<char>)>
    decreases actions.len(),
{
    if actions.len() == 0 {
        Seq::empty()
    } else {
        let earlier = deliveries(actions.drop_last());
        match actions.last() {
            ActionView::Deliver { payload, endpoint } => earlier.push((payload, endpoint)),
            _ => earlier,
        }
    }
}

/// The number of heartbeat frames in a run of updates.
pub open spec fn heartbeats<T>(updates: Seq<Update<T>>) -> nat
    decreases updates.len(),
{
    if updates.len() == 0 {
        0
    } else {
        heartbeats(updates.drop_last()) + if updates.last() is Ping { 1nat } else { 0nat }
    }
}

/// The number of acknowledgements that a run of actions sends.
pub open spec fn acknowledgements<T>(actions: Seq<ActionView<T>>) -> nat
    decreases actions.len(),
{
    if actions.len() == 0 {
        0
    } else {
        acknowledgements(actions.drop_last()) + if actions.last() is Acknowledge { 1nat } else { 0nat }
    }
}

/// The manager after `k` consecutive failures, none of them followed by a
/// successful subscription.
pub open spec fn after_failures<R>(manager: ManagerState<R>, k: nat) -> ManagerState<R>
    decreases k,
{
    if k == 0 {
        manager
    } else {
        after_failures(manager, (k - 1) as nat).retried()
    }
}

/// The reconnect that raises the attempt counter to `n`, for any `n` from 1
/// to the ceiling, waits the base interval times the smaller of `n` and
/// five, and leaves the manager backing off.
pub proof fn reconnect_delay_is_capped_ramp<R>(manager: ManagerState<R>, n: nat)
    requires
        1 <= n <= manager.policy.max_attempts,
        manager.attempts == n - 1,
    ensures
        manager.retry_outcome() is Ok,
        manager.retry_outcome()->Ok_0 == manager.policy.base_interval_ms * min(n as int, 5),
        manager.escalation::<()>(ManagerError::Stream) == (ActionView::<()>::Sleep {
            delay_ms: manager.retry_outcome()->Ok_0,
        }),
        manager.retried().attempts == n,
        manager.retried().phase == Phase::Backoff,
{
    let base = manager.policy.base_interval_ms as nat;
    let multiple = backoff_multiple(n);
    assert(multiple <= BACKOFF_CAP);
    assert(base * multiple <= 0xffff_ffff * 5) by (nonlinear_arith)
        requires
            base <= 0xffff_ffff,
            multiple <= 5,
    ;
}

/// Past the ceiling a reconnect does not wait: it ends the cycle with
/// `RetryExhausted` and leaves the counter as it was.
pub proof fn reconnect_past_ceiling_gives_up<R>(manager: ManagerState<R>, n: nat)
    requires
        n > manager.policy.max_attempts,
        manager.attempts == n - 1,
    ensures
        manager.retry_outcome() == Err::<u64, ManagerError>(ManagerError::RetryExhausted),
        manager.escalation::<()>(ManagerError::Stream) == ActionView::<()>::Fail(ManagerError::RetryExhausted),
        manager.retried().attempts == manager.attempts,
        manager.retried().phase == Phase::Failed,
{
}

/// After `k` consecutive failures that began with the counter at zero, the
/// counter stands at `k` or at the ceiling, whichever is smaller.
pub proof fn failures_are_counted<R>(manager: ManagerState<R>, k: nat)
    requires
        manager.attempts == 0,
    ensures
        after_failures(manager, k).attempts == min(k as int, manager.policy.max_attempts as int),
        after_failures(manager, k).policy == manager.policy,
    decreases k,
{
    if k > 0 {
        failures_are_counted(manager, (k - 1) as nat);
    }
}

/// Of consecutive failures that began with the counter at zero, the `n`th
/// waits the base interval times the smaller of `n` and five as long as `n`
/// is within the ceiling, and every later one ends the cycle with
/// `RetryExhausted` and without a wait.
pub proof fn nth_failure_in_a_row<R>(manager: ManagerState<R>, n: nat)
    requires
        manager.attempts == 0,
        n >= 1,
    ensures
        n <= manager.policy.max_attempts ==> after_failures(manager, (n - 1) as nat).retry_outcome() == Ok::<
            u64,
            ManagerError,
        >((manager.policy.base_interval_ms * min(n as int, 5)) as u64),
        n <= manager.policy.max_attempts ==> manager.policy.base_interval_ms * min(n as int, 5) <= u64::MAX,
        n > manager.policy.max_attempts ==> after_failures(manager, (n - 1) as nat).retry_outcome() == Err::<
            u64,
            ManagerError,
        >(ManagerError::RetryExhausted),
{
    failures_are_counted(manager, (n - 1) as nat);
    if n <= manager.policy.max_attempts {
        reconnect_delay_is_capped_ramp(after_failures(manager, (n - 1) as nat), n);
    }
}

/// While the manager awaits a message, every update is accepted and is
/// answered as the receive loop answers it, tagged with the manager's
/// endpoint; the stream stays open and the attempt counter at rest. A pong
/// or an unrecognized message changes nothing at all.
pub proof fn every_update_is_answered<R, T>(manager: ManagerState<R>, update: Update<T>)
    requires
        manager.phase == Phase::Streaming(StreamTask::Receiving),
    ensures
        manager.accepts(Event::Update(update)),
        manager.answer(Event::Update(update)) == reaction(update, manager.endpoint),
        manager.after(Event::Update(update)).connected(),
        manager.after(Event::Update(update)).attempts == manager.attempts,
        update is Pong || update is Unrecognized ==> manager.after(Event::Update(update)) == manager,
{
}

/// The next update waits for the handler: from a transaction until the
/// handler has returned the manager accepts no update and nothing but that
/// return, after which it is as it was and asks for the next message.
pub proof fn handler_runs_before_the_next_update<R, T>(manager: ManagerState<R>, payload: T, next: Event<T>)
    requires
        manager.phase == Phase::Streaming(StreamTask::Receiving),
    ensures
        manager.after(Event::Update(Update::Transaction(payload))).accepts(next) <==> next is Delivered,
        manager.after(Event::Update(Update::Transaction(payload))).after(Event::<T>::Delivered) == manager,
        manager.after(Event::Update(Update::Transaction(payload))).answer(Event::<T>::Delivered)
            == ActionView::<T>::Receive,
{
}

/// The next update waits for the acknowledgement: from a heartbeat frame
/// until its acknowledgement is sent the manager accepts no update and
/// nothing but the outcome of the send. Sent, the manager is as it was and
/// asks for the next message; not sent, the stream counts as broken.
pub proof fn acknowledgement_precedes_the_next_update<R, T>(manager: ManagerState<R>, next: Event<T>)
    requires
        manager.phase == Phase::Streaming(StreamTask::Receiving),
    ensures
        manager.after(Event::<T>::Update(Update::Ping)).accepts(next) <==> next is HeartbeatSent
            || next is HeartbeatFailed,
        manager.after(Event::<T>::Update(Update::Ping)).after(Event::<T>::HeartbeatSent) == manager,
        manager.after(Event::<T>::Update(Update::Ping)).answer(Event::<T>::HeartbeatSent)
            == ActionView::<T>::Receive,
        manager.after(Event::<T>::Update(Update::Ping)).after(Event::<T>::HeartbeatFailed)
            == manager.retried(),
        manager.after(Event::<T>::Update(Update::Ping)).answer(Event::<T>::HeartbeatFailed)
            == manager.escalation::<T>(ManagerError::Stream),
{
}

/// A fault of the stream while a message is awaited is answered by the
/// backoff policy: a wait, or the end of the cycle.
pub proof fn stream_faults_are_retried<R, T>(manager: ManagerState<R>, fault: Event<T>)
    requires
        manager.phase == Phase::Streaming(StreamTask::Receiving),
        fault is DecodeFailed || fault is StreamClosed,
    ensures
        manager.accepts(fault),
        manager.after(fault) == manager.retried(),
        manager.answer(fault) == manager.escalation::<T>(ManagerError::Stream),
        !manager.after(fault).connected(),
{
}

/// A subscribe call that fails ends the cycle at once, with the counter as
/// it was: it is not retried.
pub proof fn setup_failure_is_final<R, T>(manager: ManagerState<R>)
    requires
        manager.phase is Connecting,
    ensures
        manager.accepts(Event::<T>::SubscribeFailed),
        manager.after(Event::<T>::SubscribeFailed).phase is Failed,
        manager.after(Event::<T>::SubscribeFailed).attempts == manager.attempts,
        manager.answer(Event::<T>::SubscribeFailed) == ActionView::<T>::Fail(ManagerError::TransportSetup),
{
}

/// A manager that has not begun a cycle, or whose cycle has failed, accepts
/// no event.
pub proof fn no_event_without_a_cycle<R, T>(manager: ManagerState<R>, event: Event<T>)
    requires
        manager.phase is Disconnected || manager.phase is Failed,
    ensures
        !manager.accepts(event),
{
}

/// A successful subscription sets the attempt counter to zero, whatever it
/// was, and sets the connected flag.
pub proof fn subscription_resets_attempts<R>(manager: ManagerState<R>)
    ensures
        manager.after(Event::<()>::Subscribed).attempts == 0,
        manager.after(Event::<()>::Subscribed).connected(),
        manager.answer(Event::<()>::Subscribed) == ActionView::<()>::Receive,
{
}

/// Across consecutive failures the attempt counter never falls and never
/// passes the ceiling.
pub proof fn attempts_rise_to_ceiling<R>(manager: ManagerState<R>)
    requires
        manager.attempts <= manager.policy.max_attempts,
    ensures
        manager.attempts <= manager.retried().attempts <= manager.policy.max_attempts,
        manager.retried().attempts <= manager.attempts + 1,
{
}

/// Every transition keeps what holds of every manager.
pub proof fn transitions_keep_invariant<R, T>(manager: ManagerState<R>, request: R, event: Event<T>)
    requires
        manager.inv(),
    ensures
        manager.begun(request).inv(),
        manager.resumed(request).inv(),
        manager.accepts(event) ==> manager.after(event).inv(),
{
}

/// The connected flag is clear before the first connect, while connecting,
/// during backoff and after the cycle has failed.
pub proof fn connected_only_while_streaming<R>(manager: ManagerState<R>, request: R)
    ensures
        !ManagerState::<R>::initial(manager.endpoint, manager.credential, manager.policy).connected(),
        !manager.begun(request).connected(),
        !manager.retried().connected(),
        !manager.after(Event::<()>::SubscribeFailed).connected(),
        !manager.after(Event::<()>::BackoffElapsed).connected(),
{
}

/// No transition touches the endpoint, the credential or the policy, and
/// only a connect or a reconnect sets the request: every subscribe call of
/// a cycle is made with the request that the cycle began with.
pub proof fn configuration_is_fixed<R, T>(manager: ManagerState<R>, event: Event<T>)
    ensures
        manager.after(event).endpoint == manager.endpoint,
        manager.after(event).credential == manager.credential,
        manager.after(event).policy == manager.policy,
        manager.after(event).request == manager.request,
{
}

/// A heartbeat frame is answered by one acknowledgement with the fixed
/// identifier; a pong or an unrecognized message is answered by nothing: no
/// outbound message and no call of the handler.
pub proof fn heartbeat_is_acknowledged_once<T>(update: Update<T>, endpoint: Seq<char>)
    ensures
        update is Ping ==> reaction(update, endpoint) == ActionView::<T>::Acknowledge(
            HeartbeatAck { id: HEARTBEAT_ACK_ID },
        ),
        reaction(update, endpoint) is Acknowledge <==> update is Ping,
        reaction(update, endpoint) is Deliver <==> update is Transaction,
        update is Pong || update is Unrecognized ==> reaction(update, endpoint) == ActionView::<T>::Receive,
{
}

/// What the driver is busy with after an update is what the answer to the
/// update asked of it: the handler for a delivery, the send for an
/// acknowledgement, the next read otherwise.
pub proof fn task_follows_the_answer<T>(update: Update<T>, endpoint: Seq<char>)
    ensures
        update.task() is Delivering <==> reaction(update, endpoint) is Deliver,
        update.task() is Acknowledging <==> reaction(update, endpoint) is Acknowledge,
        update.task() is Receiving <==> reaction(update, endpoint) is Receive,
        update matches Update::Transaction(payload) ==> reaction(update, endpoint) == (ActionView::Deliver {
            payload,
            endpoint,
        }),
{
}

/// Over a run of updates the acknowledgements are as many as the heartbeat
/// frames, and each stands where its frame stood: it is sent before the
/// next update is read.
pub proof fn acknowledgements_match_heartbeats<T>(updates: Seq<Update<T>>, endpoint: Seq<char>)
    ensures
        acknowledgements(reactions(updates, endpoint)) == heartbeats(updates),
        forall|i: int|
            0 <= i < updates.len() ==> (#[trigger] reactions(updates, endpoint)[i] is Acknowledge
                <==> updates[i] is Ping),
    decreases updates.len(),
{
    if updates.len() > 0 {
        acknowledgements_match_heartbeats(updates.drop_last(), endpoint);
        assert(reactions(updates, endpoint).drop_last() =~= reactions(updates.drop_last(), endpoint));
    }
}

/// Over a run of updates the handler receives every transaction payload
/// once, in arrival order, each tagged with the endpoint, and nothing else.
pub proof fn transactions_are_delivered_in_order<T>(updates: Seq<Update<T>>, endpoint: Seq<char>)
    ensures
        deliveries(reactions(updates, endpoint)) == Seq::new(
            payloads(updates).len(),
            |i: int| (payloads(updates)[i], endpoint),
        ),
    decreases updates.len(),
{
    let actions = reactions(updates, endpoint);
    let tagged = Seq::new(payloads(updates).len(), |i: int| (payloads(updates)[i], endpoint));
    if updates.len() > 0 {
        let earlier = updates.drop_last();
        transactions_are_delivered_in_order(earlier, endpoint);
        assert(actions.drop_last() =~= reactions(earlier, endpoint));
        assert(deliveries(actions) =~= tagged);
    } else {
        assert(deliveries(actions) =~= tagged);
    }
}

} // verus!
