//! The event relay: the background task that forwards what the server emits
//! on its own to the outbound channel.
//!
//! The relay is best effort. An event that the schema of the client cannot
//! express is dropped, and nobody is told. When a push finds no receiver the
//! relay stops for good, and nobody is told either: with nobody listening,
//! events are discarded rather than piled up.

use crate::connector::OutboundItem;
use crate::messages::ButtplugServerMessage;
use tokio::sync::mpsc::Sender;
use vstd::prelude::*;

verus! {

/// Whether the relay still forwards.
#[derive(Debug, Clone, Copy, PartialEq, Eq, Structural)]
pub enum RelayState {
    Running,
    /// The relay has ended. There is no way back.
    Stopped,
}

/// What the task reports to the relay.
#[derive(Debug, PartialEq, Eq)]
pub enum RelayEvent {
    /// The event stream of the server has yielded this message.
    ServerEvent(ButtplugServerMessage),
    /// The push that was asked for has completed: `true` if the item is on
    /// the channel, `false` if there is no receiver any more.
    PushCompleted(bool),
    /// The event stream of the server has ended.
    StreamEnded,
}

/// What the relay asks of the task next.
#[derive(Debug, PartialEq, Eq)]
pub enum RelayAction {
    /// Push this item onto the outbound channel, waiting for room if it is
    /// full, and report whether it was delivered.
    Push(OutboundItem),
    /// Take the next item from the event stream and report it.
    AwaitEvent,
    /// End the task.
    Exit,
}

/// One step of the relay: the state that follows `state` on `event`, and
/// what is asked of the task.
pub open spec fn relay_step(state: RelayState, event: RelayEvent) -> (RelayState, RelayAction) {
    match state {
        RelayState::Stopped => (RelayState::Stopped, RelayAction::Exit),
        RelayState::Running => match event {
            RelayEvent::ServerEvent(message) => match message.to_current_spec() {
                Some(converted) => (RelayState::Running, RelayAction::Push(Ok(converted))),
                None => (RelayState::Running, RelayAction::AwaitEvent),
            },
            RelayEvent::PushCompleted(delivered) => if delivered {
                (RelayState::Running, RelayAction::AwaitEvent)
            } else {
                (RelayState::Stopped, RelayAction::Exit)
            },
            RelayEvent::StreamEnded => (RelayState::Stopped, RelayAction::Exit),
        },
    }
}

/// The state of the relay after it has seen `events` one after another.
pub open spec fn relay_state_after(state: RelayState, events: Seq<RelayEvent>) -> RelayState
    decreases events.len(),
{
    if events.len() == 0 {
        state
    } else {
        relay_step(relay_state_after(state, events.drop_last()), events.last()).0
    }
}

/// What the relay asks for on the last of `events`, having seen the others
/// before.
pub open spec fn relay_action_after(state: RelayState, events: Seq<RelayEvent>) -> RelayAction
    recommends
        events.len() > 0,
{
    relay_step(relay_state_after(state, events.drop_last()), events.last()).1
}

/// The relay of one connector: its state, and the sending half of the
/// outbound channel that the task pushes through.
pub struct EventRelay {
    sender: Sender<OutboundItem>,
    state: RelayState,
}

impl EventRelay {
    /// Whether the relay still forwards.
    pub closed spec fn spec_state(&self) -> RelayState {
        self.state
    }

    /// The sending half that the relay pushes through.
    pub closed spec fn spec_sender(&self) -> Sender<OutboundItem> {
        self.sender
    }

    /// A running relay that pushes through `sender`.
    pub(crate) fn new(sender: Sender<OutboundItem>) -> (relay: Self)
        ensures
            relay.spec_state() == RelayState::Running,
            relay.spec_sender() == sender,
    {
        Self { sender, state: RelayState::Running }
    }

    /// Takes the relay one step further: tells it what has happened, and
    /// learns what to do next.
    ///
    /// Begin by taking an item from the event stream. An event that the
    /// schema of the client can express comes back as a push; any other is
    /// dropped, and the next is asked for. A push that was delivered is
    /// followed by the next event. A push that was not, or the end of the
    /// stream, stops the relay; once stopped, it answers every event with
    /// `Exit`.
    pub fn on_event(&mut self, event: RelayEvent) -> (action: RelayAction)
        ensures
            (final(self).spec_state(), action) == relay_step(old(self).spec_state(), event),
            final(self).spec_sender() == old(self).spec_sender(),
    {
        match self.state {
            RelayState::Stopped => RelayAction::Exit,
            RelayState::Running => match event {
                RelayEvent::ServerEvent(message) => match message.into_current_spec() {
                    Ok(converted) => RelayAction::Push(Ok(converted)),
                    Err(_) => RelayAction::AwaitEvent,
                },
                RelayEvent::PushCompleted(delivered) => {
                    if delivered {
                        RelayAction::AwaitEvent
                    } else {
                        self.state = RelayState::Stopped;
                        RelayAction::Exit
                    }
                },
                RelayEvent::StreamEnded => {
                    self.state = RelayState::Stopped;
                    RelayAction::Exit
                },
            },
        }
    }

    pub fn state(&self) -> (state: RelayState)
        ensures
            state == self.spec_state(),
    {
        self.state
    }

    /// The sending half to push through.
    pub fn sender(&self) -> (sender: &Sender<OutboundItem>)
        ensures
            *sender == self.spec_sender(),
    {
        &self.sender
    }
}

/// A relay that has stopped stays stopped, and asks for nothing but the end
/// of its task, whatever is reported to it.
pub proof fn lemma_stopped_relay_stays_stopped(events: Seq<RelayEvent>)
    ensures
        relay_state_after(RelayState::Stopped, events) == RelayState::Stopped,
        events.len() > 0 ==> relay_action_after(RelayState::Stopped, events)
            == RelayAction::Exit,
    decreases events.len(),
{
    if events.len() > 0 {
        lemma_stopped_relay_stays_stopped(events.drop_last());
    }
}

/// A push that finds no receiver ends the relay for good: from the report of
/// that push on, the relay is stopped and never asks for another push.
pub proof fn lemma_failed_push_ends_relay(events: Seq<RelayEvent>, failed: int, later: int)
    requires
        0 <= failed <= later < events.len(),
        events[failed] == RelayEvent::PushCompleted(false),
    ensures
        relay_state_after(RelayState::Running, events.take(later + 1)) == RelayState::Stopped,
        relay_action_after(RelayState::Running, events.take(later + 1)) == RelayAction::Exit,
    decreases later - failed,
{
    let seen = events.take(later + 1);
    assert(seen.last() == events[later]);
    assert(seen.drop_last() == events.take(later));
    if later > failed {
        lemma_failed_push_ends_relay(events, failed, later - 1);
    }
}

} // verus!
