use vstd::prelude::*;
use crate::delivery::{matching_indices, matching_positions};
use crate::protocol::{initial, step, Action, ClientMessage, Input, Phase, SessionState};

verus! {

/// One client's session: its lifecycle phase, its filter, and the handle of
/// the dispatcher it registers with.
pub struct Subscriber<F, M> {
    phase: Phase,
    registered: bool,
    filter: Option<F>,
    monitor: M,
}

impl<F, M> View for Subscriber<F, M> {
    type V = SessionState<F>;

    closed spec fn view(&self) -> SessionState<F> {
        SessionState { phase: self.phase, registered: self.registered, filter: self.filter }
    }
}

impl<F, M> Subscriber<F, M> {
    /// The dispatcher handle this subscriber was created with.
    pub closed spec fn monitor_spec(&self) -> M {
        self.monitor
    }

    /// A subscriber for a newly accepted connection, not yet registered.
    pub fn new(monitor: M) -> (r: Self)
        ensures
            r@ == initial::<F>(),
            r.monitor_spec() == monitor,
    {
        Subscriber { phase: Phase::Created, registered: false, filter: None, monitor }
    }

    /// Takes one input and returns the action to perform, as `step` says.
    pub fn handle(&mut self, input: Input<F>) -> (r: Action)
        ensures
            (final(self)@, r) == step(old(self)@, input),
            final(self).monitor_spec() == old(self).monitor_spec(),
    {
        match input {
            Input::Start => match self.phase {
                Phase::Created => {
                    self.phase = Phase::Registering;
                    Action::Register
                },
                _ => Action::Nothing,
            },
            Input::Registered(ok) => match self.phase {
                Phase::Registering => if ok {
                    self.phase = Phase::Active;
                    self.registered = true;
                    Action::Nothing
                } else {
                    self.phase = Phase::RegisterFailed;
                    Action::Close
                },
                Phase::Cancelling => if ok {
                    self.phase = Phase::Stopping;
                    self.registered = true;
                    Action::Unregister
                } else {
                    self.phase = Phase::Destroyed;
                    Action::Nothing
                },
                _ => Action::Nothing,
            },
            Input::Client(m) => match self.phase {
                Phase::Active => self.handle_client(m),
                _ => Action::Nothing,
            },
            Input::FilterParsed(parsed) => match (self.phase, self.filter.is_none()) {
                (Phase::Active, true) => match parsed {
                    Some(f) => {
                        self.filter = Some(f);
                        Action::Nothing
                    },
                    None => {
                        self.phase = Phase::Closing;
                        Action::Close
                    },
                },
                _ => Action::Nothing,
            },
            Input::DeliveryFailed => match self.phase {
                Phase::Active => {
                    self.phase = Phase::Closing;
                    Action::Close
                },
                _ => Action::Nothing,
            },
            Input::Stopped => match self.phase {
                Phase::Created | Phase::RegisterFailed => {
                    self.phase = Phase::Destroyed;
                    Action::Nothing
                },
                Phase::Registering => {
                    self.phase = Phase::Cancelling;
                    Action::Nothing
                },
                Phase::Active | Phase::Closing => {
                    self.phase = Phase::Stopping;
                    Action::Unregister
                },
                _ => Action::Nothing,
            },
            Input::Unregistered(_) => match self.phase {
                Phase::Stopping => {
                    self.phase = Phase::Destroyed;
                    Action::Nothing
                },
                _ => Action::Nothing,
            },
        }
    }

    /// A client message while registered and open.
    fn handle_client(&mut self, m: ClientMessage) -> (r: Action)
        requires
            old(self)@.phase == Phase::Active,
        ensures
            (final(self)@, r) == step(old(self)@, Input::Client(m)),
            final(self).monitor_spec() == old(self).monitor_spec(),
    {
        match m {
            ClientMessage::Ping(p) => Action::Pong(p),
            ClientMessage::Text(t) => if self.filter.is_none() {
                Action::ParseFilter(t)
            } else {
                Action::Nothing
            },
            ClientMessage::Close | ClientMessage::ProtocolError => {
                self.phase = Phase::Closing;
                Action::Close
            },
            ClientMessage::Other => Action::Nothing,
        }
    }

    /// The positions, in batch order, of the events of a pushed batch to
    /// deliver, given whether each event matches the accepted filter.
    /// Before registration, without a filter, or once teardown began,
    /// nothing is delivered.
    pub fn handle_new_events(&self, matched: &Vec<bool>) -> (r: Vec<usize>)
        ensures
            self@.phase == Phase::Active && self@.filter is Some ==> r@ == matching_indices(
                matched@,
            ),
            !(self@.phase == Phase::Active && self@.filter is Some) ==> r@.len() == 0,
    {
        match (self.phase, self.filter.is_some()) {
            (Phase::Active, true) => matching_positions(matched),
            _ => Vec::new(),
        }
    }

    /// The current lifecycle phase.
    pub fn phase(&self) -> (r: Phase)
        ensures
            r == self@.phase,
    {
        self.phase
    }

    /// Whether the dispatcher ever accepted this subscriber's registration.
    pub fn is_registered(&self) -> (r: bool)
        ensures
            r == self@.registered,
    {
        self.registered
    }

    /// The accepted filter, if one was accepted.
    pub fn filter(&self) -> (r: Option<&F>)
        ensures
            match r {
                Some(f) => self@.filter == Some(*f),
                None => self@.filter is None,
            },
    {
        self.filter.as_ref()
    }

    /// The dispatcher handle this subscriber registers with.
    pub fn monitor(&self) -> (r: &M)
        ensures
            *r == self.monitor_spec(),
    {
        &self.monitor
    }
}

} // verus!
