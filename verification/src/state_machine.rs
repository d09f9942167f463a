//! A small generic state machine: named states supplied by the user of the
//! library, a current state, and a tick that lets the current state run and
//! then follow the transition it asks for.

use vstd::prelude::*;

verus! {

/// The names states are registered and addressed under.
#[derive(Clone, Copy, PartialEq, Eq, Structural, Debug)]
pub enum StateName {
    Empty,
    Idle,
    Running,
}

/// What a state must provide to live in a `StateMachine`. Implementations
/// come from the library's users; the machine promises nothing about what
/// their methods do.
pub trait State {
    fn get_state_name(&self) -> StateName;

    fn should_transition(&self) -> Option<StateName>;

    fn tick(&mut self);

    fn enter_state(&mut self);

    fn exit_state(&mut self);
}

/// A machine holding at most one state per name and the name of the state
/// currently in charge.
pub struct StateMachine<S: State> {
    pub empty_state: Option<S>,
    pub idle_state: Option<S>,
    pub running_state: Option<S>,
    pub current_state: StateName,
}

impl<S: State> StateMachine<S> {
    /// An empty machine, resting in the empty state.
    pub fn new() -> (r: StateMachine<S>)
        ensures
            r.empty_state is None,
            r.idle_state is None,
            r.running_state is None,
            r.current_state == StateName::Empty,
    {
        StateMachine {
            empty_state: None,
            idle_state: None,
            running_state: None,
            current_state: StateName::Empty,
        }
    }

    /// Let the current state run one step and follow the transition it
    /// requests. The empty state does nothing; ticking a named state
    /// touches only that state's slot, and the machine ends up either where
    /// it was or wherever the state asked to go.
    pub fn tick(&mut self)
        requires
            old(self).current_state == StateName::Idle ==> old(self).idle_state is Some,
            old(self).current_state == StateName::Running ==> old(self).running_state is Some,
        ensures
            old(self).current_state == StateName::Empty ==> *final(self) == *old(self),
            final(self).empty_state == old(self).empty_state,
            old(self).current_state == StateName::Idle ==> final(self).running_state == old(
                self,
            ).running_state && final(self).idle_state is Some,
            old(self).current_state == StateName::Running ==> final(self).idle_state == old(
                self,
            ).idle_state && final(self).running_state is Some,
    {
        match self.current_state {
            StateName::Idle => {
                match &mut self.idle_state {
                    Some(state) => {
                        state.tick();
                        match state.should_transition() {
                            Some(next) => {
                                self.current_state = next;
                            },
                            None => {},
                        }
                    },
                    None => {},
                }
            },
            StateName::Running => {
                match &mut self.running_state {
                    Some(state) => {
                        state.tick();
                        match state.should_transition() {
                            Some(next) => {
                                self.current_state = next;
                            },
                            None => {},
                        }
                    },
                    None => {},
                }
            },
            StateName::Empty => {},
        }
    }

    /// Register a state under the name it reports for itself; a state
    /// already under that name is replaced. Exactly one slot changes, and it
    /// now holds the given state.
    pub fn add_state(&mut self, state: S)
        ensures
            final(self).current_state == old(self).current_state,
            ({
                ||| (final(self).empty_state is Some && final(self).idle_state == old(
                    self,
                ).idle_state && final(self).running_state == old(self).running_state)
                ||| (final(self).idle_state is Some && final(self).empty_state == old(
                    self,
                ).empty_state && final(self).running_state == old(self).running_state)
                ||| (final(self).running_state is Some && final(self).empty_state == old(
                    self,
                ).empty_state && final(self).idle_state == old(self).idle_state)
            }),
    {
        match state.get_state_name() {
            StateName::Empty => {
                self.empty_state = Some(state);
            },
            StateName::Idle => {
                self.idle_state = Some(state);
            },
            StateName::Running => {
                self.running_state = Some(state);
            },
        }
    }
}

} // verus!
