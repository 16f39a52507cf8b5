use vstd::prelude::*;

verus! {

/// What the play/pause button reports.
#[derive(Debug, Clone, Copy, PartialEq, Eq, Structural, Hash)]
pub enum Message {
    /// The button was pressed and now asks for this playing state.
    Press(bool),
}

/// What the owner of the button has to do after a message.
#[derive(Debug, Clone, Copy, PartialEq, Eq, Structural, Hash)]
pub enum Action {
    /// Start or resume playback.
    Play,
    /// Pause playback.
    Pause,
}

/// The playing state that a message asks for.
pub open spec fn requested(msg: Message) -> bool {
    match msg {
        Message::Press(b) => b,
    }
}

/// The action that carries out a new playing state.
pub open spec fn action_for(is_playing: bool) -> Action {
    if is_playing {
        Action::Play
    } else {
        Action::Pause
    }
}

/// The message that pressing the button sends while it shows `is_on`.
pub open spec fn press_message(is_on: bool) -> Message {
    Message::Press(!is_on)
}

/// The play/pause button of a track; a new button shows "paused".
pub struct PlayPause {
    is_playing: bool,
}

impl PlayPause {
    /// Whether the button shows "playing".
    pub closed spec fn playing(self) -> bool {
        self.is_playing
    }

    /// A button that shows "paused".
    pub fn new() -> (res: Self)
        ensures
            !res.playing(),
    {
        PlayPause { is_playing: false }
    }

    /// Sets the button to the state the message asks for and says whether
    /// playback is to start or to pause.
    pub fn update(&mut self, msg: Message) -> (res: Action)
        ensures
            final(self).playing() == requested(msg),
            res == action_for(requested(msg)),
    {
        match msg {
            Message::Press(is_playing) => {
                self.is_playing = is_playing;
                if is_playing {
                    Action::Play
                } else {
                    Action::Pause
                }
            },
        }
    }

    /// Whether the button shows "playing".
    pub fn is_on(&self) -> (res: bool)
        ensures
            res == self.playing(),
    {
        self.is_playing
    }

    /// The message that pressing the button sends while it shows `is_on`:
    /// it asks for the opposite state.
    pub fn message(&self, is_on: bool) -> (res: Message)
        ensures
            res == press_message(is_on),
    {
        Message::Press(!is_on)
    }
}

impl Default for PlayPause {
    fn default() -> (res: Self)
        ensures
            !res.playing(),
    {
        PlayPause { is_playing: false }
    }
}

/// Pressing the button flips it: the message sent while it shows its
/// current state, once handled, leaves it in the opposite state, and the
/// action carries out that new state.
pub proof fn lemma_press_flips(is_on: bool)
    ensures
        requested(press_message(is_on)) == !is_on,
        action_for(requested(press_message(is_on))) == (if is_on {
            Action::Pause
        } else {
            Action::Play
        }),
{
}

/// A press asks for exactly the state it carries; the button then asks
/// to play exactly when playing is asked for; and pressing the button while
/// it shows a state asks for the other one.
pub proof fn lemma_update_follows_request(b: bool)
    ensures
        requested(Message::Press(b)) == b,
        action_for(true) == Action::Play,
        action_for(false) == Action::Pause,
        press_message(b) == Message::Press(!b),
{
}

} // verus!
