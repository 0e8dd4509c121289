//! The connection manager: the state of one subscription client and its
//! transitions.

use vstd::prelude::*;
use crate::backoff::BackoffPolicy;
use crate::credential::{credential_ok, text_of};
use crate::transport::{encodes_as_header, endpoint_accepted, parses_as_endpoint};
use crate::protocol::{Action, ActionView, Event, ManagerError, Phase, StreamTask};
use crate::receive::{dispatch, reaction};

verus! {

/// A manager as contracts see it.
pub struct ManagerState<R> {
    /// The address given at construction. It tags every delivered payload.
    pub endpoint: Seq<char>,
    /// The credential given at construction.
    pub credential: Option<Seq<char>>,
    pub policy: BackoffPolicy,
    /// Reconnects made since the last successful subscription.
    pub attempts: nat,
    pub phase: Phase,
    /// The request of the current connect cycle.
    pub request: Option<R>,
}

impl<R> ManagerState<R> {
    /// What holds of every manager: the counter stays within its ceiling,
    /// it is zero while the stream is open, and a cycle that has begun has
    /// a request.
    pub open spec fn inv(self) -> bool {
        &&& self.attempts <= self.policy.max_attempts
        &&& self.phase is Streaming ==> self.attempts == 0
        &&& self.phase is Disconnected || self.request is Some
    }

    /// The connected flag: set exactly while the stream is being consumed.
    pub open spec fn connected(self) -> bool {
        self.phase is Streaming
    }

    /// A manager fresh from construction.
    pub open spec fn initial(
        endpoint: Seq<char>,
        credential: Option<Seq<char>>,
        policy: BackoffPolicy,
    ) -> ManagerState<R> {
        ManagerState {
            endpoint,
            credential,
            policy,
            attempts: 0,
            phase: Phase::Disconnected,
            request: None,
        }
    }

    /// The manager after a connect cycle has begun with `request`.
    pub open spec fn begun(self, request: R) -> ManagerState<R> {
        ManagerState { phase: Phase::Connecting, request: Some(request), ..self }
    }

    /// The manager after the backoff policy was consulted: failed when the
    /// counter has reached the ceiling, else backing off with the counter
    /// raised by one.
    pub open spec fn retried(self) -> ManagerState<R> {
        if self.policy.gives_up_at(self.attempts) {
            ManagerState { phase: Phase::Failed, ..self }
        } else {
            ManagerState { phase: Phase::Backoff, attempts: self.attempts + 1, ..self }
        }
    }

    /// What consulting the backoff policy yields: the delay of the next
    /// attempt in milliseconds, or the end of retrying.
    pub open spec fn retry_outcome(self) -> Result<u64, ManagerError> {
        if self.policy.gives_up_at(self.attempts) {
            Err(ManagerError::RetryExhausted)
        } else {
            Ok(self.policy.delay_of(self.attempts + 1) as u64)
        }
    }

    /// The manager after a reconnect with `request`: the request is kept and
    /// the backoff policy consulted.
    pub open spec fn resumed(self, request: R) -> ManagerState<R> {
        ManagerState { request: Some(request), ..self }.retried()
    }

    /// The manager after a failure of the given kind: a recoverable one is
    /// retried, any other ends the cycle.
    pub open spec fn escalated(self, kind: ManagerError) -> ManagerState<R> {
        if kind.recoverable() {
            self.retried()
        } else {
            ManagerState { phase: Phase::Failed, ..self }
        }
    }

    /// The action that answers a failure of the given kind: for a
    /// recoverable one the wait before the next attempt, or the end of
    /// retrying; for any other the failure itself.
    pub open spec fn escalation<T>(self, kind: ManagerError) -> ActionView<T> {
        if kind.recoverable() {
            match self.retry_outcome() {
                Ok(delay_ms) => ActionView::Sleep { delay_ms },
                Err(error) => ActionView::Fail(error),
            }
        } else {
            ActionView::Fail(kind)
        }
    }

    /// Whether the event can occur in the manager's phase, that is, whether
    /// it is an outcome of the action that the manager asked for last: of
    /// the subscribe call while connecting, of the read, the handler or the
    /// send while streaming, of the wait while backing off.
    pub open spec fn accepts<T>(self, event: Event<T>) -> bool {
        match self.phase {
            Phase::Connecting => event is Subscribed || event is SubscribeFailed,
            Phase::Streaming(StreamTask::Receiving) => event is Update || event is DecodeFailed
                || event is StreamClosed,
            Phase::Streaming(StreamTask::Delivering) => event is Delivered,
            Phase::Streaming(StreamTask::Acknowledging) => event is HeartbeatSent
                || event is HeartbeatFailed,
            Phase::Backoff => event is BackoffElapsed,
            Phase::Disconnected | Phase::Failed => false,
        }
    }

    /// The manager after an event that it accepts.
    pub open spec fn after<T>(self, event: Event<T>) -> ManagerState<R> {
        match event {
            Event::Subscribed => ManagerState {
                phase: Phase::Streaming(StreamTask::Receiving),
                attempts: 0,
                ..self
            },
            Event::Update(update) => ManagerState {
                phase: Phase::Streaming(update.task()),
                ..self
            },
            Event::Delivered | Event::HeartbeatSent => ManagerState {
                phase: Phase::Streaming(StreamTask::Receiving),
                ..self
            },
            Event::BackoffElapsed => ManagerState { phase: Phase::Connecting, ..self },
            _ => match event.failure() {
                Some(kind) => self.escalated(kind),
                None => self,
            },
        }
    }

    /// The action that answers an event that the manager accepts.
    pub open spec fn answer<T>(self, event: Event<T>) -> ActionView<T> {
        match event {
            Event::Subscribed | Event::Delivered | Event::HeartbeatSent => ActionView::Receive,
            Event::Update(update) => reaction(update, self.endpoint),
            Event::BackoffElapsed => ActionView::Subscribe,
            _ => match event.failure() {
                Some(kind) => self.escalation(kind),
                None => ActionView::Receive,
            },
        }
    }
}

/// The state of one subscription client: where it connects to, how it
/// backs off, and where it stands in its connect cycle.
///
/// The manager decides and its driver acts. A cycle begins with
/// [`connect`](GrpcStreamManager::connect); from then on the driver performs
/// the action it was handed and reports the outcome to
/// [`step`](GrpcStreamManager::step), until the action is `Fail`.
pub struct GrpcStreamManager<R> {
    endpoint: String,
    x_token: Option<String>,
    policy: BackoffPolicy,
    reconnect_attempts: u32,
    phase: Phase,
    request: Option<R>,
}

impl<R> View for GrpcStreamManager<R> {
    type V = ManagerState<R>;

    closed spec fn view(&self) -> ManagerState<R> {
        ManagerState {
            endpoint: self.endpoint@,
            credential: text_of(self.x_token),
            policy: self.policy,
            attempts: self.reconnect_attempts as nat,
            phase: self.phase,
            request: self.request,
        }
    }
}

impl<R> GrpcStreamManager<R> {
    #[verifier::type_invariant]
    spec fn well_formed(self) -> bool {
        self@.inv()
    }

    /// A manager for the endpoint, with the default backoff policy: ten
    /// attempts on a base interval of five seconds. Fails with a
    /// configuration error when the credential cannot be sent as a header
    /// value or the transport rejects the address.
    pub fn new(endpoint: &str, x_token: Option<String>) -> (res: Result<GrpcStreamManager<R>, ManagerError>)
        ensures
            res is Ok <==> credential_ok(text_of(x_token)) && endpoint_accepted(endpoint@),
            res matches Ok(manager) ==> manager@ == ManagerState::<R>::initial(
                endpoint@,
                text_of(x_token),
                BackoffPolicy { max_attempts: 10, base_interval_ms: 5_000 },
            ),
            res matches Err(error) ==> error == ManagerError::Config,
    {
        GrpcStreamManager::with_policy(endpoint, x_token, BackoffPolicy::default())
    }

    /// A manager for the endpoint, with the given backoff policy.
    pub fn with_policy(endpoint: &str, x_token: Option<String>, policy: BackoffPolicy) -> (res: Result<
        GrpcStreamManager<R>,
        ManagerError,
    >)
        ensures
            res is Ok <==> credential_ok(text_of(x_token)) && endpoint_accepted(endpoint@),
            res matches Ok(manager) ==> manager@ == ManagerState::<R>::initial(
                endpoint@,
                text_of(x_token),
                policy,
            ),
            res matches Err(error) ==> error == ManagerError::Config,
    {
        let credential_passed = match &x_token {
            Some(token) => encodes_as_header(token.as_str()),
            None => true,
        };
        let endpoint_passed = parses_as_endpoint(endpoint);
        GrpcStreamManager::assemble(endpoint, x_token, policy, credential_passed, endpoint_passed)
    }

    /// Builds the manager once the configuration has been checked: a
    /// manager when both checks passed, a configuration error otherwise.
    pub fn assemble(
        endpoint: &str,
        x_token: Option<String>,
        policy: BackoffPolicy,
        credential_passed: bool,
        endpoint_passed: bool,
    ) -> (res: Result<GrpcStreamManager<R>, ManagerError>)
        ensures
            res is Ok <==> credential_passed && endpoint_passed,
            res matches Ok(manager) ==> manager@ == ManagerState::<R>::initial(
                endpoint@,
                text_of(x_token),
                policy,
            ),
            res matches Err(error) ==> error == ManagerError::Config,
    {
        if credential_passed && endpoint_passed {
            Ok(
                GrpcStreamManager {
                    endpoint: endpoint.to_owned(),
                    x_token,
                    policy,
                    reconnect_attempts: 0,
                    phase: Phase::Disconnected,
                    request: None,
                },
            )
        } else {
            Err(ManagerError::Config)
        }
    }

    /// Begins a connect cycle with `request` and asks for the subscribe
    /// call. The request is kept for every subscribe call of the cycle; the
    /// attempt counter is left as it is.
    pub fn connect<T>(&mut self, request: R) -> (action: Action<T>)
        ensures
            final(self)@ == old(self)@.begun(request),
            action@ == ActionView::<T>::Subscribe,
            final(self)@.inv(),
    {
        proof {
            use_type_invariant(&*self);
        }
        self.request = Some(request);
        self.phase = Phase::Connecting;
        Action::Subscribe
    }

    /// Reacts to the loss of the stream: gives up when the attempt counter
    /// has reached its ceiling, else counts one more attempt and returns the
    /// wait before it, in milliseconds. After the wait the driver reports
    /// `BackoffElapsed`, and the manager asks for a subscribe call with
    /// `request`.
    pub fn reconnect(&mut self, request: R) -> (res: Result<u64, ManagerError>)
        ensures
            final(self)@ == old(self)@.resumed(request),
            res == old(self)@.retry_outcome(),
            final(self)@.inv(),
    {
        proof {
            use_type_invariant(&*self);
        }
        self.request = Some(request);
        let res = self.retry();
        proof {
            use_type_invariant(&*self);
        }
        res
    }

    /// Consults the backoff policy after a failure.
    fn retry(&mut self) -> (res: Result<u64, ManagerError>)
        requires
            old(self)@.request is Some,
        ensures
            final(self)@ == old(self)@.retried(),
            res == old(self)@.retry_outcome(),
    {
        proof {
            use_type_invariant(&*self);
        }
        if self.policy.exhausted(self.reconnect_attempts) {
            self.phase = Phase::Failed;
            Err(ManagerError::RetryExhausted)
        } else {
            self.phase = Phase::Backoff;
            self.reconnect_attempts = self.reconnect_attempts + 1;
            Ok(self.policy.delay(self.reconnect_attempts))
        }
    }

    /// Decides what becomes of a failure of the given kind.
    fn escalate<T>(&mut self, kind: ManagerError) -> (action: Action<T>)
        requires
            old(self)@.request is Some,
        ensures
            final(self)@ == old(self)@.escalated(kind),
            action@ == old(self)@.escalation::<T>(kind),
    {
        proof {
            use_type_invariant(&*self);
        }
        if kind.is_recoverable() {
            match self.retry() {
                Ok(delay_ms) => Action::Sleep { delay_ms },
                Err(error) => Action::Fail(error),
            }
        } else {
            self.phase = Phase::Failed;
            Action::Fail(kind)
        }
    }

    /// Whether the event can occur in the manager's phase.
    pub fn accepts<T>(&self, event: &Event<T>) -> (yes: bool)
        ensures
            yes == self@.accepts(*event),
    {
        match self.phase {
            Phase::Connecting => match event {
                Event::Subscribed | Event::SubscribeFailed => true,
                _ => false,
            },
            Phase::Streaming(StreamTask::Receiving) => match event {
                Event::Update(_) | Event::DecodeFailed | Event::StreamClosed => true,
                _ => false,
            },
            Phase::Streaming(StreamTask::Delivering) => match event {
                Event::Delivered => true,
                _ => false,
            },
            Phase::Streaming(StreamTask::Acknowledging) => match event {
                Event::HeartbeatSent | Event::HeartbeatFailed => true,
                _ => false,
            },
            Phase::Backoff => match event {
                Event::BackoffElapsed => true,
                _ => false,
            },
            Phase::Disconnected | Phase::Failed => false,
        }
    }

    /// Takes what the driver reports and returns what it is to do next, or
    /// nothing when the event cannot occur in the manager's phase: then the
    /// manager is unchanged.
    pub fn step<T>(&mut self, event: Event<T>) -> (res: Option<Action<T>>)
        ensures
            old(self)@.accepts(event) ==> {
                &&& final(self)@ == old(self)@.after(event)
                &&& res matches Some(action) && action@ == old(self)@.answer(event)
            },
            !old(self)@.accepts(event) ==> {
                &&& final(self)@ == old(self)@
                &&& res is None
            },
            final(self)@.inv(),
    {
        proof {
            use_type_invariant(&*self);
        }
        if !self.accepts(&event) {
            return None;
        }
        let action = match event {
            Event::Subscribed => {
                self.reconnect_attempts = 0;
                self.phase = Phase::Streaming(StreamTask::Receiving);
                Action::Receive
            },
            Event::Update(update) => {
                self.phase = Phase::Streaming(update.stream_task());
                dispatch(update, self.endpoint.as_str())
            },
            Event::Delivered | Event::HeartbeatSent => {
                self.phase = Phase::Streaming(StreamTask::Receiving);
                Action::Receive
            },
            Event::BackoffElapsed => {
                self.phase = Phase::Connecting;
                Action::Subscribe
            },
            fault => match fault.failure_kind() {
                Some(kind) => self.escalate(kind),
                None => Action::Receive,
            },
        };
        proof {
            use_type_invariant(&*self);
        }
        Some(action)
    }

    /// The address that the manager was constructed with.
    pub fn endpoint(&self) -> (address: &str)
        ensures
            address@ == self@.endpoint,
    {
        self.endpoint.as_str()
    }

    /// The credential that the manager was constructed with.
    pub fn x_token(&self) -> (token: &Option<String>)
        ensures
            text_of(*token) == self@.credential,
    {
        &self.x_token
    }

    pub fn policy(&self) -> (policy: BackoffPolicy)
        ensures
            policy == self@.policy,
    {
        self.policy
    }

    /// Reconnects made since the last successful subscription.
    pub fn reconnect_attempts(&self) -> (attempts: u32)
        ensures
            attempts as nat == self@.attempts,
            self@.inv(),
    {
        proof {
            use_type_invariant(self);
        }
        self.reconnect_attempts
    }

    pub fn phase(&self) -> (phase: Phase)
        ensures
            phase == self@.phase,
            self@.inv(),
    {
        proof {
            use_type_invariant(self);
        }
        self.phase
    }

    /// Whether the stream is open and being consumed.
    pub fn is_connected(&self) -> (connected: bool)
        ensures
            connected == self@.connected(),
    {
        match self.phase {
            Phase::Streaming(_) => true,
            _ => false,
        }
    }

    /// The request of the current connect cycle: the one to submit with
    /// every subscribe call.
    pub fn request(&self) -> (request: Option<&R>)
        ensures
            request is Some <==> self@.request is Some,
            request matches Some(r) ==> self@.request == Some(*r),
            self@.inv(),
    {
        proof {
            use_type_invariant(self);
        }
        self.request.as_ref()
    }
}

} // verus!
