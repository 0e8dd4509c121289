//! The vocabulary shared by the manager and its driver: what arrives on the
//! stream, what the driver reports, what the manager asks for, and the ways
//! in which a connection can fail.

use vstd::prelude::*;

verus! {

/// One message of the subscription stream. The payload type is the
/// driver's: the manager carries a payload to the handler unread.
#[derive(Debug, PartialEq, Eq)]
pub enum Update<T> {
    /// A transaction payload, to be handed to the handler.
    Transaction(T),
    /// A heartbeat frame, to be acknowledged.
    Ping,
    /// The remote end's answer to an acknowledgement, with its identifier.
    Pong(i32),
    /// Any other message.
    Unrecognized,
}

/// The kinds of failure, one variant per kind.
#[derive(Clone, Copy, Debug, PartialEq, Eq, Structural)]
pub enum ManagerError {
    /// The endpoint or the credential is malformed. Raised at construction.
    Config,
    /// A subscribe call did not yield a stream. Ends the connect cycle.
    TransportSetup,
    /// An established stream broke. Answered by a reconnect.
    Stream,
    /// The attempt counter has reached its ceiling. Ends the connect cycle.
    RetryExhausted,
}

impl ManagerError {
    /// Whether a failure of this kind is answered by a reconnect rather than
    /// handed to the caller.
    pub open spec fn recoverable(self) -> bool {
        self is Stream
    }

    pub fn is_recoverable(&self) -> (yes: bool)
        ensures
            yes == self.recoverable(),
    {
        match self {
            ManagerError::Stream => true,
            _ => false,
        }
    }

    /// A short description of the failure.
    pub fn message(&self) -> (text: &'static str)
        ensures
            *self is Config ==> text@ == "Invalid endpoint or credential"@,
            *self is TransportSetup ==> text@ == "Subscription could not be established"@,
            *self is Stream ==> text@ == "Subscription stream failed"@,
            *self is RetryExhausted ==> text@ == "Max reconnection attempts reached"@,
    {
        match self {
            ManagerError::Config => "Invalid endpoint or credential",
            ManagerError::TransportSetup => "Subscription could not be established",
            ManagerError::Stream => "Subscription stream failed",
            ManagerError::RetryExhausted => "Max reconnection attempts reached",
        }
    }
}

/// What the driver is doing with an open stream.
#[derive(Clone, Copy, Debug, PartialEq, Eq, Structural)]
pub enum StreamTask {
    /// Awaiting the next message.
    Receiving,
    /// Running the handler on a transaction payload.
    Delivering,
    /// Sending a heartbeat acknowledgement.
    Acknowledging,
}

/// Where a manager stands in its connect cycle.
#[derive(Clone, Copy, Debug, PartialEq, Eq, Structural)]
pub enum Phase {
    /// No connect cycle has begun.
    Disconnected,
    /// A subscribe call is under way.
    Connecting,
    /// The stream is open and being consumed.
    Streaming(StreamTask),
    /// The manager waits before the next subscribe call.
    Backoff,
    /// The connect cycle has ended with an error.
    Failed,
}

impl<T> Update<T> {
    /// What the driver does with the message before it reads the next one:
    /// it runs the handler on a transaction, acknowledges a heartbeat frame,
    /// and goes straight on after anything else.
    pub open spec fn task(self) -> StreamTask {
        match self {
            Update::Transaction(_) => StreamTask::Delivering,
            Update::Ping => StreamTask::Acknowledging,
            Update::Pong(_) | Update::Unrecognized => StreamTask::Receiving,
        }
    }

    pub fn stream_task(&self) -> (task: StreamTask)
        ensures
            task == self.task(),
    {
        match self {
            Update::Transaction(_) => StreamTask::Delivering,
            Update::Ping => StreamTask::Acknowledging,
            Update::Pong(_) | Update::Unrecognized => StreamTask::Receiving,
        }
    }
}

/// What the driver reports to the manager: the outcome of the action that
/// it was handed last.
#[derive(Debug, PartialEq, Eq)]
pub enum Event<T> {
    /// The subscribe call returned a stream.
    Subscribed,
    /// The subscribe call returned an error.
    SubscribeFailed,
    /// The stream yielded a message.
    Update(Update<T>),
    /// The stream yielded a message that could not be decoded, or a
    /// transport error.
    DecodeFailed,
    /// The remote end closed the stream.
    StreamClosed,
    /// The handler has returned.
    Delivered,
    /// The heartbeat acknowledgement has been sent.
    HeartbeatSent,
    /// The heartbeat acknowledgement could not be sent.
    HeartbeatFailed,
    /// The wait before a reconnect is over.
    BackoffElapsed,
}

impl<T> Event<T> {
    /// The kind of failure that the event reports, if it reports one.
    pub open spec fn failure(self) -> Option<ManagerError> {
        match self {
            Event::SubscribeFailed => Some(ManagerError::TransportSetup),
            Event::DecodeFailed | Event::StreamClosed | Event::HeartbeatFailed => Some(
                ManagerError::Stream,
            ),
            Event::Subscribed
            | Event::Update(_)
            | Event::Delivered
            | Event::HeartbeatSent
            | Event::BackoffElapsed => None,
        }
    }

    pub fn failure_kind(&self) -> (kind: Option<ManagerError>)
        ensures
            kind == self.failure(),
    {
        match self {
            Event::SubscribeFailed => Some(ManagerError::TransportSetup),
            Event::DecodeFailed | Event::StreamClosed | Event::HeartbeatFailed => Some(
                ManagerError::Stream,
            ),
            Event::Subscribed
            | Event::Update(_)
            | Event::Delivered
            | Event::HeartbeatSent
            | Event::BackoffElapsed => None,
        }
    }
}

/// The acknowledgement that answers a heartbeat frame.
#[derive(Clone, Copy, Debug, PartialEq, Eq, Structural)]
pub struct HeartbeatAck {
    pub id: i32,
}

/// What the manager asks its driver to do next. The driver performs the
/// action to its end and reports the outcome as one event.
#[derive(Debug, PartialEq, Eq)]
pub enum Action<T> {
    /// Submit the subscribe call with the manager's request, then report
    /// `Subscribed` or `SubscribeFailed`.
    Subscribe,
    /// Await the next message of the stream and report it as `Update`, or
    /// report `DecodeFailed` or `StreamClosed`.
    Receive,
    /// Call the handler with the payload and the endpoint, then report
    /// `Delivered`. The manager takes no notice of what the handler does: if
    /// it panics, the driver unwinds with it.
    Deliver { payload: T, endpoint: String },
    /// Send the acknowledgement on the stream, then report `HeartbeatSent`,
    /// or `HeartbeatFailed` if it could not be sent.
    Acknowledge(HeartbeatAck),
    /// Release the stream, wait for the given number of milliseconds, then
    /// report `BackoffElapsed`.
    Sleep { delay_ms: u64 },
    /// Release the stream, end the connect cycle and hand the error to the
    /// caller. No event answers it.
    Fail(ManagerError),
}

/// An [`Action`] as contracts see it: the endpoint is its text.
pub enum ActionView<T> {
    Subscribe,
    Receive,
    Deliver { payload: T, endpoint: Seq<char> },
    Acknowledge(HeartbeatAck),
    Sleep { delay_ms: u64 },
    Fail(ManagerError),
}

impl<T> View for Action<T> {
    type V = ActionView<T>;

    open spec fn view(&self) -> ActionView<T> {
        match *self {
            Action::Subscribe => ActionView::Subscribe,
            Action::Receive => ActionView::Receive,
            Action::Deliver { payload, endpoint } => ActionView::Deliver {
                payload,
                endpoint: endpoint@,
            },
            Action::Acknowledge(ack) => ActionView::Acknowledge(ack),
            Action::Sleep { delay_ms } => ActionView::Sleep { delay_ms },
            Action::Fail(error) => ActionView::Fail(error),
        }
    }
}

} // verus!
