use vstd::prelude::*;

verus! {

/// Bound on the number of unprocessed work items (registration answers,
/// pushed batches, client messages) queued for one subscriber.
pub const MAILBOX_CAPACITY: usize = 1024;

/// Where a subscriber stands in its lifecycle.
#[derive(Clone, Copy, Debug, PartialEq, Eq, Structural)]
pub enum Phase {
    /// The connection was accepted; registration was not requested yet.
    Created,
    /// Registration was requested; the dispatcher has not answered.
    Registering,
    /// Registered: client messages and event batches are handled.
    Active,
    /// The dispatcher refused registration; the connection is being closed.
    RegisterFailed,
    /// The connection closed while registration was still pending.
    Cancelling,
    /// Registered, and the subscriber asked for its connection to be closed.
    Closing,
    /// Unregistration was requested; the dispatcher has not answered.
    Stopping,
    /// Terminal: nothing happens any more.
    Destroyed,
}

/// A message read from the client's connection.
#[derive(Debug, PartialEq, Eq)]
pub enum ClientMessage {
    /// A keepalive ping with its payload.
    Ping(Vec<u8>),
    /// A text payload; the first one is the filter specification.
    Text(String),
    /// The client closes the connection.
    Close,
    /// A transport or protocol error on the connection.
    ProtocolError,
    /// Any other frame (binary, continuation, pong, unknown control).
    Other,
}

/// Everything that can happen to a subscriber.
pub enum Input<F> {
    /// The connection was opened and the subscriber started.
    Start,
    /// The dispatcher answered the registration request: accepted or not.
    Registered(bool),
    /// The client sent a message.
    Client(ClientMessage),
    /// The outcome of parsing the text that a `ParseFilter` action handed out.
    FilterParsed(Option<F>),
    /// A matching event could not be encoded for the client.
    DeliveryFailed,
    /// The connection is gone, whoever closed it.
    Stopped,
    /// The dispatcher answered the unregistration request: removed or not.
    Unregistered(bool),
}

/// What the subscriber asks its surroundings to do after an input.
#[derive(Debug, PartialEq, Eq)]
pub enum Action {
    /// Nothing to do.
    Nothing,
    /// Send a registration request to the dispatcher.
    Register,
    /// Reply to the client with a pong carrying this payload.
    Pong(Vec<u8>),
    /// Parse this text as a filter and report the outcome as `FilterParsed`.
    ParseFilter(String),
    /// Close the client's connection.
    Close,
    /// Send an unregistration request to the dispatcher.
    Unregister,
}

/// The abstract state of a subscriber.
pub struct SessionState<F> {
    pub phase: Phase,
    /// Whether the dispatcher ever accepted this subscriber's registration.
    pub registered: bool,
    /// The accepted filter, if any.
    pub filter: Option<F>,
}

/// The state of a freshly created subscriber.
pub open spec fn initial<F>() -> SessionState<F> {
    SessionState { phase: Phase::Created, registered: false, filter: None }
}

/// Moves to `phase`, keeping the rest of the state.
pub open spec fn with_phase<F>(s: SessionState<F>, phase: Phase) -> SessionState<F> {
    SessionState { phase, ..s }
}

/// Handling of a client message while registered and open.
pub open spec fn step_client<F>(s: SessionState<F>, m: ClientMessage) -> (SessionState<F>, Action) {
    match m {
        ClientMessage::Ping(p) => (s, Action::Pong(p)),
        ClientMessage::Text(t) => if s.filter is None {
            (s, Action::ParseFilter(t))
        } else {
            (s, Action::Nothing)
        },
        ClientMessage::Close => (with_phase(s, Phase::Closing), Action::Close),
        ClientMessage::ProtocolError => (with_phase(s, Phase::Closing), Action::Close),
        ClientMessage::Other => (s, Action::Nothing),
    }
}

/// One transition of the subscriber: the next state and the action to perform.
/// An input that does not apply to the current phase changes nothing.
pub open spec fn step<F>(s: SessionState<F>, input: Input<F>) -> (SessionState<F>, Action) {
    match input {
        Input::Start => if s.phase == Phase::Created {
            (with_phase(s, Phase::Registering), Action::Register)
        } else {
            (s, Action::Nothing)
        },
        Input::Registered(ok) => if s.phase == Phase::Registering {
            if ok {
                (SessionState { phase: Phase::Active, registered: true, ..s }, Action::Nothing)
            } else {
                (with_phase(s, Phase::RegisterFailed), Action::Close)
            }
        } else if s.phase == Phase::Cancelling {
            if ok {
                (SessionState { phase: Phase::Stopping, registered: true, ..s }, Action::Unregister)
            } else {
                (with_phase(s, Phase::Destroyed), Action::Nothing)
            }
        } else {
            (s, Action::Nothing)
        },
        Input::Client(m) => if s.phase == Phase::Active {
            step_client(s, m)
        } else {
            (s, Action::Nothing)
        },
        Input::FilterParsed(parsed) => if s.phase == Phase::Active && s.filter is None {
            match parsed {
                Some(f) => (SessionState { filter: Some(f), ..s }, Action::Nothing),
                None => (with_phase(s, Phase::Closing), Action::Close),
            }
        } else {
            (s, Action::Nothing)
        },
        Input::DeliveryFailed => if s.phase == Phase::Active {
            (with_phase(s, Phase::Closing), Action::Close)
        } else {
            (s, Action::Nothing)
        },
        Input::Stopped => match s.phase {
            Phase::Created => (with_phase(s, Phase::Destroyed), Action::Nothing),
            Phase::RegisterFailed => (with_phase(s, Phase::Destroyed), Action::Nothing),
            Phase::Registering => (with_phase(s, Phase::Cancelling), Action::Nothing),
            Phase::Active => (with_phase(s, Phase::Stopping), Action::Unregister),
            Phase::Closing => (with_phase(s, Phase::Stopping), Action::Unregister),
            _ => (s, Action::Nothing),
        },
        Input::Unregistered(_) => if s.phase == Phase::Stopping {
            (with_phase(s, Phase::Destroyed), Action::Nothing)
        } else {
            (s, Action::Nothing)
        },
    }
}

/// Feeds `inputs` one by one from `s`: the final state and every action, in order.
pub open spec fn run<F>(s: SessionState<F>, inputs: Seq<Input<F>>) -> (SessionState<F>, Seq<Action>)
    decreases inputs.len(),
{
    if inputs.len() == 0 {
        (s, Seq::empty())
    } else {
        let (next, a) = step(s, inputs[0]);
        let (last, rest) = run(next, inputs.drop_first());
        (last, seq![a] + rest)
    }
}

/// How many unregistration requests a list of actions holds.
pub open spec fn unregister_count(actions: Seq<Action>) -> nat
    decreases actions.len(),
{
    if actions.len() == 0 {
        0
    } else {
        (if actions[0] is Unregister { 1nat } else { 0nat }) + unregister_count(actions.drop_first())
    }
}

/// Whether teardown has reached the dispatcher side (or finished).
pub open spec fn torn_down<F>(s: SessionState<F>) -> bool {
    s.phase == Phase::Stopping || s.phase == Phase::Destroyed
}

} // verus!
