use vstd::prelude::*;

verus! {

/// What the looping switch reports.
#[derive(Debug, Clone, Copy, PartialEq, Eq, Structural, Hash)]
pub enum Message {
    /// The switch was pressed and now asks for this looping state.
    Pressed(bool),
}

/// What the owner of the switch has to do after a message.
#[derive(Debug, Clone, Copy, PartialEq, Eq, Structural, Hash)]
pub enum Action {
    /// Loop the whole sound from its start.
    Enable,
    /// Stop looping.
    Disable,
}

/// The looping state that a message asks for.
pub open spec fn requested(msg: Message) -> bool {
    match msg {
        Message::Pressed(b) => b,
    }
}

/// The action that reports a new looping state.
pub open spec fn action_for(is_looping: bool) -> Action {
    if is_looping {
        Action::Enable
    } else {
        Action::Disable
    }
}

/// The message that pressing the switch sends while it shows `is_on`.
pub open spec fn press_message(is_on: bool) -> Message {
    Message::Pressed(!is_on)
}

/// The looping switch of a track; a new switch is on.
pub struct Loop {
    is_looping: bool,
}

impl Loop {
    /// Whether the switch is on.
    pub closed spec fn looping(self) -> bool {
        self.is_looping
    }

    /// A switch that is on.
    pub fn new() -> (res: Self)
        ensures
            res.looping(),
    {
        Loop { is_looping: true }
    }

    /// Sets the switch to the state the message asks for and says whether
    /// looping is now enabled or disabled.
    pub fn update(&mut self, msg: Message) -> (res: Action)
        ensures
            final(self).looping() == requested(msg),
            res == action_for(requested(msg)),
    {
        match msg {
            Message::Pressed(is_looping) => {
                self.is_looping = is_looping;
                if is_looping {
                    Action::Enable
                } else {
                    Action::Disable
                }
            },
        }
    }

    /// Whether the switch is on.
    pub fn is_on(&self) -> (res: bool)
        ensures
            res == self.looping(),
    {
        self.is_looping
    }

    /// The message that pressing the switch sends while it shows `is_on`:
    /// it asks for the opposite state.
    pub fn message(&self, is_on: bool) -> (res: Message)
        ensures
            res == press_message(is_on),
    {
        Message::Pressed(!is_on)
    }
}

impl Default for Loop {
    fn default() -> (res: Self)
        ensures
            res.looping(),
    {
        Loop { is_looping: true }
    }
}

/// Pressing the switch flips it: the message sent while it shows its
/// current state, once handled, leaves it in the opposite state, and the
/// action reports that new state.
pub proof fn lemma_press_flips(is_on: bool)
    ensures
        requested(press_message(is_on)) == !is_on,
        action_for(requested(press_message(is_on))) == (if is_on {
            Action::Disable
        } else {
            Action::Enable
        }),
{
}

/// A press asks for exactly the state it carries; the switch then reports
/// enabling exactly when looping is asked for; and pressing the switch
/// while it shows a state asks for the other one.
pub proof fn lemma_update_follows_request(b: bool)
    ensures
        requested(Message::Pressed(b)) == b,
        action_for(true) == Action::Enable,
        action_for(false) == Action::Disable,
        press_message(b) == Message::Pressed(!b),
{
}

} // verus!
