use vstd::prelude::*;

verus! {

/// What the progress bar of a track reports; `T` is the type of a time
/// position within the track.
#[derive(Debug, Clone, Copy, PartialEq)]
pub enum Message<T> {
    /// The cursor moved over the bar, to this time position.
    Moved(T),
    /// The bar was pressed.
    Pressed,
    /// The bar was released.
    Released,
    /// The seek that followed a release has settled.
    Seeked,
}

/// What the owner of the bar has to do after a message.
#[derive(Debug, Clone, Copy, PartialEq, Eq, Structural)]
pub enum Action {
    /// Seek the track to the bar's offset.
    Release,
}

/// The abstract state of a progress bar.
pub struct ProgressState<T> {
    /// Length of the track.
    pub duration: T,
    /// The position the user has chosen to seek to.
    pub offset: T,
    /// The time position under the cursor.
    pub cursor_pos: T,
    /// Whether the bar is being held down.
    pub cursor_holding: bool,
    /// Whether the bar shows the chosen offset rather than the playback
    /// position.
    pub seeking: bool,
}

/// The state of a bar after it handled `msg` in state `s`, the track playing
/// or not as `is_playing` says.
pub open spec fn next_state<T>(s: ProgressState<T>, msg: Message<T>, is_playing: bool) -> ProgressState<T> {
    match msg {
        Message::Moved(v) => ProgressState {
            cursor_pos: v,
            offset: if s.cursor_holding {
                v
            } else {
                s.offset
            },
            ..s
        },
        Message::Pressed => ProgressState {
            cursor_holding: true,
            seeking: true,
            offset: s.cursor_pos,
            ..s
        },
        Message::Released => ProgressState { cursor_holding: false, ..s },
        Message::Seeked => if !s.cursor_holding && is_playing {
            ProgressState { seeking: false, ..s }
        } else {
            s
        },
    }
}

/// What the owner has to do after the bar handled `msg`: only a release asks
/// for a seek.
pub open spec fn next_action<T>(msg: Message<T>) -> Option<Action> {
    match msg {
        Message::Released => Some(Action::Release),
        _ => None,
    }
}

/// Dragging the bar seeks to where it was let go: pressing it, moving the
/// cursor to `v` and releasing it leaves the offset at `v`, the bar no longer
/// held but still showing the offset, and asks for a seek; the length of the
/// track is untouched.
pub proof fn lemma_drag_seeks_to_release_point<T>(s: ProgressState<T>, v: T, is_playing: bool)
    ensures
        ({
            let pressed = next_state(s, Message::Pressed, is_playing);
            let moved = next_state(pressed, Message::Moved(v), is_playing);
            let released = next_state(moved, Message::Released, is_playing);
            &&& released.offset == v
            &&& released.cursor_pos == v
            &&& !released.cursor_holding
            &&& released.seeking
            &&& released.duration == s.duration
            &&& next_action(Message::<T>::Released) == Some(Action::Release)
        }),
{
}

/// While the bar is held, a settled seek does not hand it back to
/// playback: it keeps showing the chosen offset.
pub proof fn lemma_held_bar_keeps_seeking<T>(s: ProgressState<T>, is_playing: bool)
    requires
        s.cursor_holding,
    ensures
        next_state(s, Message::Seeked, is_playing) == s,
{
}

/// The progress bar of a track: it follows the playback position, and while
/// the user drags it, it shows and remembers the position to seek to.
pub struct Progress<T> {
    duration: T,
    offset: T,
    cursor_pos: T,
    cursor_holding: bool,
    seeking: bool,
}

impl<T> View for Progress<T> {
    type V = ProgressState<T>;

    closed spec fn view(&self) -> ProgressState<T> {
        ProgressState {
            duration: self.duration,
            offset: self.offset,
            cursor_pos: self.cursor_pos,
            cursor_holding: self.cursor_holding,
            seeking: self.seeking,
        }
    }
}

impl<T: Copy> Progress<T> {
    /// How long, in milliseconds, a seek is given to settle before the bar
    /// follows playback again.
    pub const DEBOUNCE_INTERVAL: u64 = 500;

    /// A bar for a track of the given length, with offset and cursor at
    /// `start`, not held and not seeking.
    pub fn new(duration: T, start: T) -> (res: Self)
        ensures
            res@ == (ProgressState {
                duration,
                offset: start,
                cursor_pos: start,
                cursor_holding: false,
                seeking: false,
            }),
    {
        Progress { duration, offset: start, cursor_pos: start, cursor_holding: false, seeking: false }
    }

    /// Handles a message of the bar. `is_playing` tells whether the track is
    /// playing; a settled seek only hands the bar back to playback then.
    pub fn update(&mut self, msg: Message<T>, is_playing: bool) -> (res: Option<Action>)
        ensures
            final(self)@ == next_state(old(self)@, msg, is_playing),
            res == next_action(msg),
    {
        match msg {
            Message::Moved(v) => {
                self.cursor_pos = v;
                if self.cursor_holding {
                    self.offset = self.cursor_pos;
                }
                None
            },
            Message::Pressed => {
                self.cursor_holding = true;
                self.seeking = true;
                self.offset = self.cursor_pos;
                None
            },
            Message::Released => {
                self.cursor_holding = false;
                Some(Action::Release)
            },
            Message::Seeked => {
                if !self.cursor_holding && is_playing {
                    self.stop_seeking();
                }
                None
            },
        }
    }

    /// The value the bar shows: the chosen offset while seeking, else the
    /// playback position of the track.
    pub fn shown_value(&self, track_position: T) -> (res: T)
        ensures
            res == (if self@.seeking {
                self@.offset
            } else {
                track_position
            }),
    {
        if self.seeking {
            self.offset
        } else {
            track_position
        }
    }

    /// The position the user has chosen to seek to.
    pub fn offset(&self) -> (res: T)
        ensures
            res == self@.offset,
    {
        self.offset
    }

    /// Hands the bar back to playback.
    pub fn stop_seeking(&mut self)
        ensures
            final(self)@ == (ProgressState { seeking: false, ..old(self)@ }),
    {
        self.seeking = false;
    }

    /// Length of the track.
    pub fn duration(&self) -> (res: T)
        ensures
            res == self@.duration,
    {
        self.duration
    }

    /// Whether the bar is being held down.
    pub fn is_holding(&self) -> (res: bool)
        ensures
            res == self@.cursor_holding,
    {
        self.cursor_holding
    }

    /// Whether the bar shows the chosen offset rather than playback.
    pub fn is_seeking(&self) -> (res: bool)
        ensures
            res == self@.seeking,
    {
        self.seeking
    }
}

/// What each message does to the bar, stated field by field: a cursor
/// move records the cursor's time position and carries the offset along
/// only while the bar is held; a press holds the bar, starts seeking and
/// takes the cursor's position as the offset; a release lets go and keeps
/// everything else; a settled seek hands the bar back to playback only when
/// it is not held and the track plays. The track's length never changes,
/// and only a release asks for a seek.
pub proof fn lemma_progress_messages<T>(s: ProgressState<T>, v: T, is_playing: bool, m: Message<T>)
    ensures
        next_state(s, Message::Moved(v), is_playing).cursor_pos == v,
        next_state(s, Message::Moved(v), is_playing).offset == (if s.cursor_holding {
            v
        } else {
            s.offset
        }),
        next_state(s, Message::Moved(v), is_playing).cursor_holding == s.cursor_holding,
        next_state(s, Message::Moved(v), is_playing).seeking == s.seeking,
        next_state(s, Message::<T>::Pressed, is_playing).cursor_holding,
        next_state(s, Message::<T>::Pressed, is_playing).seeking,
        next_state(s, Message::<T>::Pressed, is_playing).offset == s.cursor_pos,
        next_state(s, Message::<T>::Pressed, is_playing).cursor_pos == s.cursor_pos,
        !next_state(s, Message::<T>::Released, is_playing).cursor_holding,
        next_state(s, Message::<T>::Released, is_playing).offset == s.offset,
        next_state(s, Message::<T>::Released, is_playing).seeking == s.seeking,
        next_state(s, Message::<T>::Released, is_playing).cursor_pos == s.cursor_pos,
        next_state(s, Message::<T>::Seeked, is_playing).seeking == (s.seeking && (s.cursor_holding
            || !is_playing)),
        next_state(s, Message::<T>::Seeked, is_playing).offset == s.offset,
        next_state(s, Message::<T>::Seeked, is_playing).cursor_holding == s.cursor_holding,
        next_state(s, Message::<T>::Seeked, is_playing).cursor_pos == s.cursor_pos,
        next_state(s, m, is_playing).duration == s.duration,
        (next_action(m) == Some(Action::Release)) <==> (m is Released),
        !(m is Released) ==> next_action(m) is None,
{
}

} // verus!
