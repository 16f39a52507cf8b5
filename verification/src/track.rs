pub mod looping;
pub mod play_pause;
pub mod progress;

use vstd::prelude::*;

use self::looping::Loop;
use self::play_pause::PlayPause;
use self::progress::{Progress, ProgressState};

verus! {

/// What a track's controls report, and what the soundscape tells a track;
/// `V` is the type of a position on the plane and `S` that of a scalar
/// (a radius, a time position).
#[derive(Debug, Clone, Copy, PartialEq)]
pub enum Message<V, S> {
    PlayPause(play_pause::Message),
    Progress(progress::Message<S>),
    Loop(looping::Message),
    Selected(bool),
    ListenerMoved(V),
    Moved { new_position: V, listener_position: V },
    Resized { new_radius: S, listener_position: V },
    RemoveRequested,
}

/// What the owner of a track has to carry out after a message.
#[derive(Debug, Clone, Copy, PartialEq)]
pub enum Effect<V, S> {
    /// Nothing beyond the change of state.
    Nothing,
    /// Start or resume playback.
    Play,
    /// Pause playback.
    Pause,
    /// Seek playback to this position, then let the seek settle.
    Seek(S),
    /// Turn looping of the whole sound on or off.
    SetLooping(bool),
    /// Recompute the volume for a listener at this position.
    Attenuate(V),
    /// Take the track out of the scene.
    Remove,
}

/// Where the sound of a track stands with its player.
#[derive(Debug, Clone, Copy, PartialEq, Eq, Structural)]
pub enum SoundStatus {
    /// Handed to the player and not stopping or stopped: it can be resumed.
    Live,
    /// Handed to the player, but stopping or stopped.
    Ended,
    /// Loaded and ready to be handed to the player.
    Loaded,
    /// Neither loaded nor handed to the player.
    Absent,
}

/// How playback is to be started.
#[derive(Debug, Clone, Copy, PartialEq, Eq, Structural)]
pub enum PlayPlan {
    /// Resume the sound the player holds.
    Resume,
    /// Hand the loaded sound to the player.
    PlayLoaded,
    /// Load the sound afresh, at the progress bar's offset and with the
    /// looping switch's setting, and hand it to the player.
    Reload,
}

/// How to start playback of a sound in the given status: a live sound is
/// resumed, a loaded one is played, and an ended or absent one is loaded
/// afresh first.
pub fn play_plan(status: SoundStatus) -> (res: PlayPlan)
    ensures
        res == (match status {
            SoundStatus::Live => PlayPlan::Resume,
            SoundStatus::Loaded => PlayPlan::PlayLoaded,
            SoundStatus::Ended | SoundStatus::Absent => PlayPlan::Reload,
        }),
{
    match status {
        SoundStatus::Live => PlayPlan::Resume,
        SoundStatus::Loaded => PlayPlan::PlayLoaded,
        SoundStatus::Ended | SoundStatus::Absent => PlayPlan::Reload,
    }
}

/// The abstract state of a track.
pub struct TrackView<V, S> {
    pub id: u128,
    pub name: Seq<char>,
    pub position: V,
    pub radius: S,
    pub selected: bool,
    pub playing: bool,
    pub progress: ProgressState<S>,
    pub looping: bool,
}

/// The state of a track after it handled `msg` in state `t`.
pub open spec fn next_view<V, S>(t: TrackView<V, S>, msg: Message<V, S>) -> TrackView<V, S> {
    match msg {
        Message::PlayPause(m) => {
            let playing = play_pause::requested(m);
            TrackView {
                playing,
                progress: if playing {
                    ProgressState { seeking: false, ..t.progress }
                } else {
                    t.progress
                },
                ..t
            }
        },
        Message::Progress(m) => TrackView {
            progress: progress::next_state(t.progress, m, t.playing),
            ..t
        },
        Message::Loop(m) => TrackView { looping: looping::requested(m), ..t },
        Message::Selected(b) => TrackView { selected: b, ..t },
        Message::ListenerMoved(_) => t,
        Message::Moved { new_position, .. } => TrackView { position: new_position, ..t },
        Message::Resized { new_radius, .. } => TrackView { radius: new_radius, ..t },
        Message::RemoveRequested => t,
    }
}

/// What the owner of a track in state `t` has to carry out after `msg`.
pub open spec fn effect_of<V, S>(t: TrackView<V, S>, msg: Message<V, S>) -> Effect<V, S> {
    match msg {
        Message::PlayPause(m) => if play_pause::requested(m) {
            Effect::Play
        } else {
            Effect::Pause
        },
        Message::Progress(m) => match progress::next_action(m) {
            Some(progress::Action::Release) => Effect::Seek(
                progress::next_state(t.progress, m, t.playing).offset,
            ),
            None => Effect::Nothing,
        },
        Message::Loop(m) => Effect::SetLooping(looping::requested(m)),
        Message::Selected(_) => Effect::Nothing,
        Message::ListenerMoved(listener) => Effect::Attenuate(listener),
        Message::Moved { listener_position, .. } => Effect::Attenuate(listener_position),
        Message::Resized { listener_position, .. } => Effect::Attenuate(listener_position),
        Message::RemoveRequested => Effect::Remove,
    }
}

/// The state of a track on the soundscape: its identity, where it sits and
/// how far it reaches, whether it is selected, and its controls. The audio
/// itself is played by the owner, as the effects of `update` say.
pub struct TrackState<V, S> {
    id: u128,
    name: String,
    position: V,
    radius: S,
    selected: bool,
    play_pause: PlayPause,
    progress: Progress<S>,
    looping: Loop,
}

impl<V, S> View for TrackState<V, S> {
    type V = TrackView<V, S>;

    closed spec fn view(&self) -> TrackView<V, S> {
        TrackView {
            id: self.id,
            name: self.name@,
            position: self.position,
            radius: self.radius,
            selected: self.selected,
            playing: self.play_pause.playing(),
            progress: self.progress@,
            looping: self.looping.looping(),
        }
    }
}

impl<V: Copy, S: Copy> TrackState<V, S> {
    /// A track that is not selected, paused, looping, with its progress bar at
    /// `start` of a sound that lasts `duration`.
    pub fn new(id: u128, name: String, position: V, radius: S, duration: S, start: S) -> (res: Self)
        ensures
            res@ == (TrackView {
                id,
                name: name@,
                position,
                radius,
                selected: false,
                playing: false,
                progress: ProgressState {
                    duration,
                    offset: start,
                    cursor_pos: start,
                    cursor_holding: false,
                    seeking: false,
                },
                looping: true,
            }),
    {
        TrackState {
            id,
            name,
            position,
            radius,
            selected: false,
            play_pause: PlayPause::new(),
            progress: Progress::new(duration, start),
            looping: Loop::new(),
        }
    }

    /// Handles a message and says what the owner has to carry out.
    pub fn update(&mut self, msg: Message<V, S>) -> (res: Effect<V, S>)
        ensures
            final(self)@ == next_view(old(self)@, msg),
            res == effect_of(old(self)@, msg),
            final(self)@.id == old(self)@.id,
            final(self)@.name == old(self)@.name,
            msg is Selected ==> final(self)@.selected == msg->Selected_0,
            !(msg is Selected) ==> final(self)@.selected == old(self)@.selected,
            msg is Moved ==> final(self)@.position == msg->Moved_new_position,
            !(msg is Moved) ==> final(self)@.position == old(self)@.position,
            msg is Resized ==> final(self)@.radius == msg->Resized_new_radius,
            !(msg is Resized) ==> final(self)@.radius == old(self)@.radius,
            msg is RemoveRequested ==> final(self)@ == old(self)@ && res == Effect::<V, S>::Remove,
    {
        match msg {
            Message::PlayPause(msg) => match self.play_pause.update(msg) {
                play_pause::Action::Play => {
                    self.progress.stop_seeking();
                    Effect::Play
                },
                play_pause::Action::Pause => Effect::Pause,
            },
            Message::Progress(msg) => {
                let playing = self.play_pause.is_on();
                match self.progress.update(msg, playing) {
                    Some(progress::Action::Release) => Effect::Seek(self.progress.offset()),
                    None => Effect::Nothing,
                }
            },
            Message::Loop(msg) => match self.looping.update(msg) {
                looping::Action::Enable => Effect::SetLooping(true),
                looping::Action::Disable => Effect::SetLooping(false),
            },
            Message::Selected(selected) => {
                self.selected = selected;
                Effect::Nothing
            },
            Message::Moved { new_position, listener_position } => {
                self.position = new_position;
                Effect::Attenuate(listener_position)
            },
            Message::Resized { new_radius, listener_position } => {
                self.radius = new_radius;
                Effect::Attenuate(listener_position)
            },
            Message::ListenerMoved(listener_position) => Effect::Attenuate(listener_position),
            Message::RemoveRequested => Effect::Remove,
        }
    }

    pub fn id(&self) -> (res: u128)
        ensures
            res == self@.id,
    {
        self.id
    }

    pub fn name(&self) -> (res: &str)
        ensures
            res@ == self@.name,
    {
        self.name.as_str()
    }

    pub fn position(&self) -> (res: V)
        ensures
            res == self@.position,
    {
        self.position
    }

    pub fn radius(&self) -> (res: S)
        ensures
            res == self@.radius,
    {
        self.radius
    }

    pub fn is_selected(&self) -> (res: bool)
        ensures
            res == self@.selected,
    {
        self.selected
    }

    /// The play/pause button.
    pub fn play_pause(&self) -> (res: &PlayPause)
        ensures
            res.playing() == self@.playing,
    {
        &self.play_pause
    }

    /// The progress bar.
    pub fn progress(&self) -> (res: &Progress<S>)
        ensures
            res@ == self@.progress,
    {
        &self.progress
    }

    /// The looping switch.
    pub fn looping(&self) -> (res: &Loop)
        ensures
            res.looping() == self@.looping,
    {
        &self.looping
    }
}

/// Starting playback hands the progress bar back to playback: after the
/// play button asks to play, the bar no longer shows a chosen offset, and
/// the owner is told to play.
pub proof fn lemma_play_stops_seeking<V, S>(t: TrackView<V, S>)
    ensures
        !next_view(t, Message::PlayPause(play_pause::Message::Press(true))).progress.seeking,
        next_view(t, Message::PlayPause(play_pause::Message::Press(true))).playing,
        effect_of(t, Message::<V, S>::PlayPause(play_pause::Message::Press(true))) == Effect::<V, S>::Play,
{
}

/// A track asks to be taken out exactly when its remove button was
/// pressed, and that request changes nothing else.
pub proof fn lemma_remove_only_on_request<V, S>(t: TrackView<V, S>, msg: Message<V, S>)
    ensures
        (effect_of(t, msg) == Effect::<V, S>::Remove) <==> (msg is RemoveRequested),
        msg is RemoveRequested ==> next_view(t, msg) == t,
{
}

/// Whenever the track or the listener moves, or the track's reach
/// changes, the owner is told to recompute the volume for the listener's
/// position that came with the message.
pub proof fn lemma_geometry_changes_reattenuate<V, S>(t: TrackView<V, S>, msg: Message<V, S>)
    ensures
        match msg {
            Message::ListenerMoved(l) => effect_of(t, msg) == Effect::<V, S>::Attenuate(l),
            Message::Moved { listener_position, .. } => effect_of(t, msg) == Effect::<V, S>::Attenuate(
                listener_position,
            ),
            Message::Resized { listener_position, .. } => effect_of(t, msg) == Effect::<
                V,
                S,
            >::Attenuate(listener_position),
            _ => !(effect_of(t, msg) is Attenuate),
        },
{
}

/// Telling a track whether it is selected sets exactly that: after
/// `Selected(b)` the track is selected if and only if `b`, whatever it was
/// before; nothing else about the track changes and the owner has nothing
/// to do.
pub proof fn lemma_selected_sets_selection<V, S>(t: TrackView<V, S>, b: bool)
    ensures
        next_view(t, Message::<V, S>::Selected(b)).selected == b,
        next_view(t, Message::<V, S>::Selected(b)) == (TrackView { selected: b, ..t }),
        effect_of(t, Message::<V, S>::Selected(b)) == Effect::<V, S>::Nothing,
{
}

/// Only `Selected` changes whether a track is selected, only `Moved` its
/// position, only `Resized` its radius, and no message changes its id or
/// name.
pub proof fn lemma_fields_change_only_by_their_message<V, S>(t: TrackView<V, S>, msg: Message<V, S>)
    ensures
        next_view(t, msg).id == t.id,
        next_view(t, msg).name == t.name,
        !(msg is Selected) ==> next_view(t, msg).selected == t.selected,
        !(msg is Moved) ==> next_view(t, msg).position == t.position,
        !(msg is Resized) ==> next_view(t, msg).radius == t.radius,
        !(msg is PlayPause) ==> next_view(t, msg).playing == t.playing,
        !(msg is Loop) ==> next_view(t, msg).looping == t.looping,
        !(msg is PlayPause || msg is Progress) ==> next_view(t, msg).progress == t.progress,
{
}

/// A move sets the position to the new one, a resize the radius to the new
/// one; the listener moving changes nothing about the track.
pub proof fn lemma_moves_and_resizes<V, S>(t: TrackView<V, S>, p: V, r: S, l: V)
    ensures
        next_view(t, Message::Moved { new_position: p, listener_position: l }) == (TrackView {
            position: p,
            ..t
        }),
        next_view(t, Message::<V, S>::Resized { new_radius: r, listener_position: l }) == (TrackView {
            radius: r,
            ..t
        }),
        next_view(t, Message::<V, S>::ListenerMoved(l)) == t,
{
}

/// Pressing play or pause sets the playing state to the request and asks
/// for play exactly when playing is requested; the looping switch sets
/// looping to the request and asks for exactly that setting.
pub proof fn lemma_switches_follow_request<V, S>(t: TrackView<V, S>, b: bool)
    ensures
        next_view(t, Message::<V, S>::PlayPause(play_pause::Message::Press(b))).playing == b,
        effect_of(t, Message::<V, S>::PlayPause(play_pause::Message::Press(b))) == (if b {
            Effect::<V, S>::Play
        } else {
            Effect::<V, S>::Pause
        }),
        !b ==> next_view(t, Message::<V, S>::PlayPause(play_pause::Message::Press(b))).progress
            == t.progress,
        b ==> next_view(t, Message::<V, S>::PlayPause(play_pause::Message::Press(b))).progress
            == (ProgressState { seeking: false, ..t.progress }),
        next_view(t, Message::<V, S>::Loop(looping::Message::Pressed(b))).looping == b,
        effect_of(t, Message::<V, S>::Loop(looping::Message::Pressed(b))) == Effect::<V, S>::SetLooping(b),
{
}

/// Letting go of the progress bar asks for a seek to the offset the bar
/// holds; every other progress message asks for nothing.
pub proof fn lemma_release_seeks_to_offset<V, S>(t: TrackView<V, S>, m: progress::Message<S>)
    ensures
        effect_of(t, Message::<V, S>::Progress(progress::Message::Released)) == Effect::<V, S>::Seek(
            t.progress.offset,
        ),
        !(m is Released) ==> effect_of(t, Message::<V, S>::Progress(m)) == Effect::<V, S>::Nothing,
{
}

} // verus!
