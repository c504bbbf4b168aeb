//! The lifecycle of one logical connection.

use crate::types::address::Address;
use tokio::net::tcp::OwnedWriteHalf;
use vstd::multiset::Multiset;
use vstd::pervasive::unreached;
use vstd::prelude::*;
use vstd::string::StringExecFns;

verus! {

/// tokio's owned write half of a split TCP stream: the write handle. It is
/// carried through as an opaque value; nothing here looks inside it.
#[verifier::external_type_specification]
#[verifier::external_body]
pub struct ExOwnedWriteHalf(OwnedWriteHalf);

/// The lifecycle as the connection's owner tracks it, with the write handle
/// where one is held.
pub enum ConnectionState {
    Connected(Address, OwnedWriteHalf),
    Connecting(Address),
    Disconnected,
    /// Holds a write handle that is still to be closed, if there is one.
    Disconnecting(Option<OwnedWriteHalf>),
}

/// A request to move the lifecycle on.
#[derive(Debug)]
pub enum StateTransition {
    ToConnecting(Address),
    ToConnected(OwnedWriteHalf),
    ToDisconnecting,
    ToDisconnected,
}

/// What a transition hands back: nothing, or the write handle that the
/// caller must now close.
pub enum StateTransitionResult {
    Nothing,
    Writer(OwnedWriteHalf),
}

/// The lifecycle as it is reported: the stage and, where there is one, the
/// address, never the write handle.
#[derive(Debug)]
pub enum ClientState {
    Connected(Address),
    Connecting(Address),
    Disconnected,
    Disconnecting,
}

impl ConnectionState {
    /// Whether the transition is an edge of the lifecycle out of this state.
    pub open spec fn permits(self, transition: StateTransition) -> bool {
        match (self, transition) {
            (ConnectionState::Disconnected, StateTransition::ToConnecting(_)) => true,
            (ConnectionState::Connecting(_), StateTransition::ToConnected(_)) => true,
            (ConnectionState::Connecting(_), StateTransition::ToDisconnecting) => true,
            (ConnectionState::Connected(_, _), StateTransition::ToDisconnecting) => true,
            (ConnectionState::Disconnecting(_), StateTransition::ToDisconnected) => true,
            _ => false,
        }
    }

    /// The state that a permitted transition leads to. A write handle that
    /// the transition hands back has left the state.
    pub open spec fn next(self, transition: StateTransition) -> ConnectionState {
        match (self, transition) {
            (ConnectionState::Disconnected, StateTransition::ToConnecting(address)) => {
                ConnectionState::Connecting(address)
            },
            (ConnectionState::Connecting(address), StateTransition::ToConnected(writer)) => {
                ConnectionState::Connected(address, writer)
            },
            (ConnectionState::Connecting(_), StateTransition::ToDisconnecting) => {
                ConnectionState::Disconnecting(None)
            },
            (ConnectionState::Connected(_, _), StateTransition::ToDisconnecting) => {
                ConnectionState::Disconnecting(None)
            },
            (ConnectionState::Disconnecting(_), StateTransition::ToDisconnected) => {
                ConnectionState::Disconnected
            },
            _ => self,
        }
    }

    /// What a permitted transition hands back.
    pub open spec fn yields(self, transition: StateTransition) -> StateTransitionResult {
        match (self, transition) {
            (ConnectionState::Connected(_, writer), StateTransition::ToDisconnecting) => {
                StateTransitionResult::Writer(writer)
            },
            (ConnectionState::Disconnecting(Some(writer)), StateTransition::ToDisconnected) => {
                StateTransitionResult::Writer(writer)
            },
            _ => StateTransitionResult::Nothing,
        }
    }

    /// The state as it is reported: the stage and the address, without the
    /// write handle.
    pub open spec fn reported(self) -> ClientState {
        match self {
            ConnectionState::Connected(address, _) => ClientState::Connected(address),
            ConnectionState::Connecting(address) => ClientState::Connecting(address),
            ConnectionState::Disconnected => ClientState::Disconnected,
            ConnectionState::Disconnecting(_) => ClientState::Disconnecting,
        }
    }

    /// The write handles that the state holds: one or none.
    pub open spec fn held(self) -> Multiset<OwnedWriteHalf> {
        match self {
            ConnectionState::Connected(_, writer) => Multiset::singleton(writer),
            ConnectionState::Disconnecting(Some(writer)) => Multiset::singleton(writer),
            _ => Multiset::empty(),
        }
    }

    /// Whether the transitions, applied one after the other from this state,
    /// are each an edge of the lifecycle.
    pub open spec fn permits_all(self, transitions: Seq<StateTransition>) -> bool
        decreases transitions.len(),
    {
        transitions.len() == 0 || (self.permits(transitions[0]) && self.next(
            transitions[0],
        ).permits_all(transitions.drop_first()))
    }

    /// The state after the transitions were applied one after the other.
    pub open spec fn after(self, transitions: Seq<StateTransition>) -> ConnectionState
        decreases transitions.len(),
    {
        if transitions.len() == 0 {
            self
        } else {
            self.next(transitions[0]).after(transitions.drop_first())
        }
    }

    /// The write handles that were handed back while the transitions were
    /// applied one after the other.
    pub open spec fn released_by(self, transitions: Seq<StateTransition>) -> Multiset<
        OwnedWriteHalf,
    >
        decreases transitions.len(),
    {
        if transitions.len() == 0 {
            Multiset::empty()
        } else {
            self.yields(transitions[0]).released().add(
                self.next(transitions[0]).released_by(transitions.drop_first()),
            )
        }
    }

    /// The state of a connection that was never opened.
    pub fn new() -> (state: Self)
        ensures
            state == ConnectionState::Disconnected,
    {
        ConnectionState::Disconnected
    }

    /// Tells whether `transition` may be applied.
    pub fn can_apply(&self, transition: &StateTransition) -> (permitted: bool)
        ensures
            permitted == self.permits(*transition),
    {
        match self {
            ConnectionState::Disconnected => match transition {
                StateTransition::ToConnecting(_) => true,
                _ => false,
            },
            ConnectionState::Connecting(_) => match transition {
                StateTransition::ToConnected(_) => true,
                StateTransition::ToDisconnecting => true,
                _ => false,
            },
            ConnectionState::Connected(_, _) => match transition {
                StateTransition::ToDisconnecting => true,
                _ => false,
            },
            ConnectionState::Disconnecting(_) => match transition {
                StateTransition::ToDisconnected => true,
                _ => false,
            },
        }
    }

    /// Applies a permitted transition: moves the state along its edge and
    /// hands back the write handle that leaves it, if any. A transition that
    /// is no edge out of the state is the caller's error and is never
    /// applied: callers that cannot show that it is permitted ask
    /// `can_apply` first.
    pub fn transition(&mut self, transition: StateTransition) -> (result: StateTransitionResult)
        requires
            old(self).permits(transition),
        ensures
            *final(self) == old(self).next(transition),
            result == old(self).yields(transition),
    {
        let mut previous = ConnectionState::Disconnected;
        std::mem::swap(self, &mut previous);
        match previous {
            ConnectionState::Disconnected => match transition {
                StateTransition::ToConnecting(address) => {
                    *self = ConnectionState::Connecting(address);
                    StateTransitionResult::Nothing
                },
                _ => unreached(),
            },
            ConnectionState::Connecting(address) => match transition {
                StateTransition::ToConnected(writer) => {
                    *self = ConnectionState::Connected(address, writer);
                    StateTransitionResult::Nothing
                },
                StateTransition::ToDisconnecting => {
                    *self = ConnectionState::Disconnecting(None);
                    StateTransitionResult::Nothing
                },
                _ => unreached(),
            },
            ConnectionState::Connected(_, writer) => match transition {
                StateTransition::ToDisconnecting => {
                    *self = ConnectionState::Disconnecting(None);
                    StateTransitionResult::Writer(writer)
                },
                _ => unreached(),
            },
            ConnectionState::Disconnecting(held) => match transition {
                StateTransition::ToDisconnected => {
                    *self = ConnectionState::Disconnected;
                    match held {
                        Some(writer) => StateTransitionResult::Writer(writer),
                        None => StateTransitionResult::Nothing,
                    }
                },
                _ => unreached(),
            },
        }
    }
}

impl StateTransition {
    /// The write handles that the transition brings along: one or none.
    pub open spec fn carried(self) -> Multiset<OwnedWriteHalf> {
        match self {
            StateTransition::ToConnected(writer) => Multiset::singleton(writer),
            _ => Multiset::empty(),
        }
    }
}

/// The write handles that a sequence of transitions brings along.
pub open spec fn carried_by(transitions: Seq<StateTransition>) -> Multiset<OwnedWriteHalf>
    decreases transitions.len(),
{
    if transitions.len() == 0 {
        Multiset::empty()
    } else {
        transitions[0].carried().add(carried_by(transitions.drop_first()))
    }
}

impl StateTransitionResult {
    /// The write handles that the result hands to the caller: one or none.
    pub open spec fn released(self) -> Multiset<OwnedWriteHalf> {
        match self {
            StateTransitionResult::Writer(writer) => Multiset::singleton(writer),
            StateTransitionResult::Nothing => Multiset::empty(),
        }
    }
}

impl ClientState {
    /// The state as it is shown: the stage, followed by the address in
    /// brackets where the stage has one.
    pub open spec fn text(self) -> Seq<char> {
        match self {
            ClientState::Connected(address) => "Connected("@ + address@.text() + ")"@,
            ClientState::Connecting(address) => "Connecting("@ + address@.text() + ")"@,
            ClientState::Disconnected => "Disconnected"@,
            ClientState::Disconnecting => "Disconnecting"@,
        }
    }

    pub fn is_connected(&self) -> (yes: bool)
        ensures
            yes == (*self is Connected),
    {
        if let Self::Connected(_) = self {
            return true;
        }
        false
    }

    pub fn is_connecting(&self) -> (yes: bool)
        ensures
            yes == (*self is Connecting),
    {
        if let Self::Connecting(_) = self {
            return true;
        }
        false
    }

    pub fn is_disconnected(&self) -> (yes: bool)
        ensures
            yes == (*self is Disconnected),
    {
        if let Self::Disconnected = self {
            return true;
        }
        false
    }

    pub fn is_disconnecting(&self) -> (yes: bool)
        ensures
            yes == (*self is Disconnecting),
    {
        if let Self::Disconnecting = self {
            return true;
        }
        false
    }

    /// The state as it is shown, such as `Connected(host:1234)`.
    pub fn to_string(&self) -> (text: String)
        ensures
            text@ == self.text(),
    {
        match self {
            ClientState::Connected(address) => {
                let mut text = String::from_str("Connected(");
                address.append_to(&mut text);
                text.append(")");
                text
            },
            ClientState::Connecting(address) => {
                let mut text = String::from_str("Connecting(");
                address.append_to(&mut text);
                text.append(")");
                text
            },
            ClientState::Disconnected => String::from_str("Disconnected"),
            ClientState::Disconnecting => String::from_str("Disconnecting"),
        }
    }
}

impl Clone for ClientState {
    fn clone(&self) -> (copy: Self)
        ensures
            copy == *self,
    {
        match self {
            ClientState::Connected(address) => ClientState::Connected(address.clone()),
            ClientState::Connecting(address) => ClientState::Connecting(address.clone()),
            ClientState::Disconnected => ClientState::Disconnected,
            ClientState::Disconnecting => ClientState::Disconnecting,
        }
    }
}

impl<'a> From<&'a ConnectionState> for ClientState {
    fn from(s: &'a ConnectionState) -> (client: Self) {
        match s {
            ConnectionState::Connected(address, _) => ClientState::Connected(address.clone()),
            ConnectionState::Connecting(address) => ClientState::Connecting(address.clone()),
            ConnectionState::Disconnected => ClientState::Disconnected,
            ConnectionState::Disconnecting(_) => ClientState::Disconnecting,
        }
    }
}

impl<'a> vstd::std_specs::convert::FromSpecImpl<&'a ConnectionState> for ClientState {
    open spec fn obeys_from_spec() -> bool {
        true
    }

    open spec fn from_spec(s: &'a ConnectionState) -> Self {
        s.reported()
    }
}

/// A write handle is moved, never copied and never lost. Over a permitted
/// transition, the handles that the state held and the transition brought
/// are exactly those that the new state holds and the result hands back; and
/// there is at most one of them.
pub proof fn lemma_handle_moves(state: ConnectionState, transition: StateTransition)
    requires
        state.permits(transition),
    ensures
        state.held().add(transition.carried()) == state.next(transition).held().add(
            state.yields(transition).released(),
        ),
        state.held().add(transition.carried()).len() <= 1,
        state.next(transition).held().len() <= 1,
{
    let before = state.held().add(transition.carried());
    let after = state.next(transition).held().add(state.yields(transition).released());
    assert(before =~= after);
}

/// The same over a whole run of permitted transitions: the handles that the
/// first state held and the transitions brought are exactly those that the
/// last state holds and the results handed back on the way.
pub proof fn lemma_handles_conserved(state: ConnectionState, transitions: Seq<StateTransition>)
    requires
        state.permits_all(transitions),
    ensures
        state.held().add(carried_by(transitions)) == state.after(transitions).held().add(
            state.released_by(transitions),
        ),
    decreases transitions.len(),
{
    let before = state.held().add(carried_by(transitions));
    let after = state.after(transitions).held().add(state.released_by(transitions));
    if transitions.len() == 0 {
        assert(before =~= after);
    } else {
        let first = transitions[0];
        let rest = transitions.drop_first();
        lemma_handle_moves(state, first);
        lemma_handles_conserved(state.next(first), rest);
        assert(before =~= state.held().add(first.carried()).add(carried_by(rest)));
        assert(after =~= state.yields(first).released().add(
            state.next(first).held().add(carried_by(rest)),
        ));
        assert(before =~= after);
    }
}

/// A run of permitted transitions can be taken apart at its end: all but
/// the last transition are permitted, the last one is permitted in the state
/// that they lead to, and the run ends where that last transition leads.
pub proof fn lemma_run_ends_with_last(state: ConnectionState, transitions: Seq<StateTransition>)
    requires
        state.permits_all(transitions),
        transitions.len() > 0,
    ensures
        state.permits_all(transitions.drop_last()),
        state.after(transitions.drop_last()).permits(transitions.last()),
        state.after(transitions) == state.after(transitions.drop_last()).next(transitions.last()),
    decreases transitions.len(),
{
    let first = transitions[0];
    let rest = transitions.drop_first();
    let front = transitions.drop_last();
    if transitions.len() == 1 {
        assert(rest.len() == 0);
        assert(front.len() == 0);
        assert(state.next(first).after(rest) == state.next(first));
        assert(state.after(front) == state);
    } else {
        lemma_run_ends_with_last(state.next(first), rest);
        assert(front[0] == first);
        assert(front.drop_first() =~= rest.drop_last());
        assert(rest.last() == transitions.last());
        assert(state.after(front) == state.next(first).after(rest.drop_last()));
        assert(state.permits_all(front));
    }
}

/// A run of permitted transitions from the disconnected state follows the
/// lifecycle. The state at its end is given by the last transition: the
/// address of a connect attempt, the address of the attempt with the handle
/// that was installed, or a stage that holds no handle. And each transition
/// comes after the one that the lifecycle puts before it.
pub proof fn lemma_run_follows_lifecycle(transitions: Seq<StateTransition>)
    requires
        ConnectionState::Disconnected.permits_all(transitions),
    ensures
        transitions.len() == 0 ==> ConnectionState::Disconnected.after(transitions)
            == ConnectionState::Disconnected,
        transitions.len() > 0 ==> match transitions.last() {
            StateTransition::ToConnecting(address) => {
                &&& ConnectionState::Disconnected.after(transitions) == ConnectionState::Connecting(
                    address,
                )
                &&& transitions.len() > 1 ==> transitions[transitions.len() - 2] is ToDisconnected
            },
            StateTransition::ToConnected(writer) => {
                &&& transitions.len() > 1
                &&& transitions[transitions.len() - 2] matches StateTransition::ToConnecting(
                    address,
                )
                &&& ConnectionState::Disconnected.after(transitions) == ConnectionState::Connected(
                    address,
                    writer,
                )
            },
            StateTransition::ToDisconnecting => {
                &&& ConnectionState::Disconnected.after(transitions)
                    == ConnectionState::Disconnecting(None)
                &&& transitions.len() > 1
                &&& transitions[transitions.len() - 2] is ToConnecting
                    || transitions[transitions.len() - 2] is ToConnected
            },
            StateTransition::ToDisconnected => {
                &&& ConnectionState::Disconnected.after(transitions)
                    == ConnectionState::Disconnected
                &&& transitions.len() > 1
                &&& transitions[transitions.len() - 2] is ToDisconnecting
            },
        },
    decreases transitions.len(),
{
    if transitions.len() > 0 {
        let start = ConnectionState::Disconnected;
        let before = transitions.drop_last();
        lemma_run_ends_with_last(start, transitions);
        lemma_run_follows_lifecycle(before);
        if before.len() > 0 {
            assert(before.last() == transitions[transitions.len() - 2]);
        }
    }
}

} // verus!
