

pub mod canvas;

use std::collections::{HashMap, VecDeque};

use vstd::prelude::*;

verus! {

broadcast use vstd::std_specs::hash::group_hash_axioms;

/// The area of the plane that a track's sound reaches: a disc around the
/// track's position. `V` is the type of a position and `S` that of a radius.
#[derive(Debug, Clone, PartialEq)]
pub struct TrackZone<V, S> {
    pub id: u128,
    pub name: String,
    pub position: V,
    pub radius: S,
}

/// What changes the soundscape: the camera, the tracks placed on it, and
/// which track is selected.
#[derive(Debug, Clone, PartialEq)]
pub enum Message<V, S> {
    /// The camera was panned to this position.
    Translated { new_position: V },
    /// The camera was zoomed to this scale, and moved if a position is given.
    Scaled { new_scale: S, new_position: Option<V> },
    /// A track was placed on the soundscape.
    NewTrack { id: u128, name: String, position: V, radius: S },
    /// A track was taken out.
    TrackRemoved(u128),
    /// This track, or none, was picked.
    TrackSelected(Option<u128>),
    /// A track was dragged to a new position.
    TrackMoved { id: u128, new_position: V },
    /// A track's reach was dragged to a new radius.
    TrackResized { id: u128, new_radius: S },
}

/// What the owner of the soundscape has to pass on.
#[derive(Debug, Clone, Copy, PartialEq)]
pub enum Action<V, S> {
    /// Tell the track that it moved.
    MoveTrack(u128, V),
    /// Tell the track that its reach changed.
    ResizeTrack(u128, S),
    /// Tell every track that the listener moved here.
    MoveListener(V),
    /// Tell the tracks whose selection changed.
    ChangeSelection { deselected: Option<u128>, selected: Option<u128> },
}

/// The abstract state of a soundscape.
pub struct SoundscapeView<V, S> {
    pub listener: V,
    pub tracks: Map<u128, TrackZone<V, S>>,
    pub camera: V,
    pub scale: S,
    pub waypoints: Seq<V>,
    pub selected: Option<u128>,
}

/// The soundscape after it handled `msg` in state `s`.
pub open spec fn next_view<V, S>(s: SoundscapeView<V, S>, msg: Message<V, S>) -> SoundscapeView<V, S> {
    match msg {
        Message::Translated { new_position } => SoundscapeView { camera: new_position, ..s },
        Message::Scaled { new_scale, new_position } => SoundscapeView {
            scale: new_scale,
            camera: match new_position {
                Some(p) => p,
                None => s.camera,
            },
            ..s
        },
        Message::NewTrack { id, name, position, radius } => SoundscapeView {
            tracks: s.tracks.insert(id, TrackZone { id, name, position, radius }),
            ..s
        },
        Message::TrackRemoved(id) => SoundscapeView { tracks: s.tracks.remove(id), ..s },
        Message::TrackSelected(id) => SoundscapeView { selected: id, ..s },
        Message::TrackMoved { id, new_position } => SoundscapeView {
            tracks: if s.tracks.contains_key(id) {
                s.tracks.insert(id, TrackZone { position: new_position, ..s.tracks[id] })
            } else {
                s.tracks
            },
            ..s
        },
        Message::TrackResized { id, new_radius } => SoundscapeView {
            tracks: if s.tracks.contains_key(id) {
                s.tracks.insert(id, TrackZone { radius: new_radius, ..s.tracks[id] })
            } else {
                s.tracks
            },
            ..s
        },
    }
}

/// What the owner has to pass on after the soundscape in state `s` handled
/// `msg`. A move or resize is passed on even for a track the soundscape
/// does not hold; picking the track that is already selected changes
/// nothing.
pub open spec fn action_of<V, S>(s: SoundscapeView<V, S>, msg: Message<V, S>) -> Option<Action<V, S>> {
    match msg {
        Message::TrackMoved { id, new_position } => Some(Action::MoveTrack(id, new_position)),
        Message::TrackResized { id, new_radius } => Some(Action::ResizeTrack(id, new_radius)),
        Message::TrackSelected(id) => if id == s.selected {
            None
        } else {
            Some(Action::ChangeSelection { deselected: s.selected, selected: id })
        },
        _ => None,
    }
}

/// One step of the listener's walk from `listener` with waypoints `w` to
/// `next_listener` with waypoints `next_w`: with no waypoint nothing
/// changes; else the listener goes where `step` sends it from its position
/// towards the first waypoint, and the leading waypoints that `reached`
/// judges reached (asked about each waypoint and the positions before and
/// after the step) are dropped, up to the first one it judges not reached.
pub open spec fn walk_step<V, F: Fn(V, V) -> V, G: Fn(V, V, V) -> bool>(
    listener: V,
    w: Seq<V>,
    next_listener: V,
    next_w: Seq<V>,
    step: F,
    reached: G,
) -> bool {
    if w.len() == 0 {
        next_listener == listener && next_w == w
    } else {
        &&& step.ensures((listener, w[0]), next_listener)
        &&& exists|k: int|
            {
                &&& 0 <= k <= w.len()
                &&& next_w == w.skip(k)
                &&& forall|i: int|
                    0 <= i < k ==> #[trigger] reached.ensures((w[i], listener, next_listener), true)
                &&& k < w.len() ==> reached.ensures((w[k], listener, next_listener), false)
            }
    }
}

/// Each entry of `trace` (a listener position and its waypoints) follows
/// from the one before by one step of the walk.
pub open spec fn is_walk<V, F: Fn(V, V) -> V, G: Fn(V, V, V) -> bool>(
    trace: Seq<(V, Seq<V>)>,
    step: F,
    reached: G,
) -> bool {
    forall|j: int|
        0 <= j < trace.len() - 1 ==> walk_step(
            #[trigger] trace[j].0,
            trace[j].1,
            trace[j + 1].0,
            trace[j + 1].1,
            step,
            reached,
        )
}

/// `n` steps of the listener's walk, each as `walk_step` says, lead from
/// `listener` with waypoints `w` to `end_listener` with `end_w`.
pub open spec fn walk<V, F: Fn(V, V) -> V, G: Fn(V, V, V) -> bool>(
    listener: V,
    w: Seq<V>,
    end_listener: V,
    end_w: Seq<V>,
    n: nat,
    step: F,
    reached: G,
) -> bool {
    exists|trace: Seq<(V, Seq<V>)>|
        {
            &&& #[trigger] is_walk(trace, step, reached)
            &&& trace.len() == n + 1
            &&& trace[0] == (listener, w)
            &&& trace[n as int] == (end_listener, end_w)
        }
}

/// The plane on which tracks are placed and the listener walks: the
/// listener's position, the tracks' zones by id, the camera's position and
/// scale, the queue of waypoints the listener walks to, and the selected
/// track.
pub struct Soundscape<V, S> {
    listener: V,
    tracks: HashMap<u128, TrackZone<V, S>>,
    camera: V,
    scale: S,
    waypoints: VecDeque<V>,
    selected_track: Option<u128>,
}

impl<V, S> View for Soundscape<V, S> {
    type V = SoundscapeView<V, S>;

    closed spec fn view(&self) -> SoundscapeView<V, S> {
        SoundscapeView {
            listener: self.listener,
            tracks: self.tracks@,
            camera: self.camera,
            scale: self.scale,
            waypoints: self.waypoints@,
            selected: self.selected_track,
        }
    }
}

impl<V: Copy, S: Copy> Soundscape<V, S> {
    /// An empty soundscape: listener and camera at `origin`, the camera at
    /// `scale`, no tracks, no waypoints, nothing selected.
    pub fn new(origin: V, scale: S) -> (res: Self)
        ensures
            res@ == (SoundscapeView {
                listener: origin,
                tracks: Map::<u128, TrackZone<V, S>>::empty(),
                camera: origin,
                scale,
                waypoints: Seq::<V>::empty(),
                selected: None::<u128>,
            }),
    {
        Soundscape {
            listener: origin,
            tracks: HashMap::new(),
            camera: origin,
            scale,
            waypoints: VecDeque::new(),
            selected_track: None,
        }
    }

    /// A soundscape restored from its parts; nothing is selected.
    pub fn from_parts(
        listener: V,
        tracks: HashMap<u128, TrackZone<V, S>>,
        camera: V,
        scale: S,
        waypoints: VecDeque<V>,
    ) -> (res: Self)
        ensures
            res@ == (SoundscapeView {
                listener,
                tracks: tracks@,
                camera,
                scale,
                waypoints: waypoints@,
                selected: None::<u128>,
            }),
    {
        Soundscape { listener, tracks, camera, scale, waypoints, selected_track: None }
    }

    /// Handles a message and says what has to be passed on.
    pub fn update(&mut self, msg: Message<V, S>) -> (res: Option<Action<V, S>>)
        ensures
            final(self)@ == next_view(old(self)@, msg),
            res == action_of(old(self)@, msg),
            final(self)@.listener == old(self)@.listener,
            final(self)@.waypoints == old(self)@.waypoints,
            msg is TrackSelected ==> final(self)@.selected == msg->TrackSelected_0,
            !(msg is TrackSelected) ==> final(self)@.selected == old(self)@.selected,
            !(msg is Translated || msg is Scaled) ==> final(self)@.camera == old(self)@.camera,
            !(msg is Scaled) ==> final(self)@.scale == old(self)@.scale,
            msg is TrackMoved ==> res == Some(
                Action::<V, S>::MoveTrack(msg->TrackMoved_id, msg->TrackMoved_new_position),
            ),
            msg is TrackResized ==> res == Some(
                Action::<V, S>::ResizeTrack(msg->TrackResized_id, msg->TrackResized_new_radius),
            ),
            (msg is TrackSelected && msg->TrackSelected_0 != old(self)@.selected) ==> res == Some(
                Action::<V, S>::ChangeSelection {
                    deselected: old(self)@.selected,
                    selected: msg->TrackSelected_0,
                },
            ),
            (msg is TrackSelected && msg->TrackSelected_0 == old(self)@.selected) ==> res is None,
            (msg is Translated || msg is Scaled || msg is NewTrack || msg is TrackRemoved) ==> res is None,
    {
        match msg {
            Message::Translated { new_position } => {
                self.camera = new_position;
                None
            },
            Message::Scaled { new_scale, new_position } => {
                self.scale = new_scale;
                if let Some(new_position) = new_position {
                    self.camera = new_position;
                }
                None
            },
            Message::NewTrack { id, name, position, radius } => {
                self.tracks.insert(id, TrackZone { id, name, position, radius });
                None
            },
            Message::TrackRemoved(id) => {
                self.tracks.remove(&id);
                None
            },
            Message::TrackMoved { id, new_position } => {
                let ghost before = self.tracks@;
                match self.tracks.remove(&id) {
                    Some(mut track) => {
                        assert(track == before[id]);
                        track.position = new_position;
                        self.tracks.insert(id, track);
                        assert(self.tracks@ =~= before.insert(id, track));
                    },
                    None => {
                        assert(self.tracks@ =~= before);
                    },
                }
                Some(Action::MoveTrack(id, new_position))
            },
            Message::TrackResized { id, new_radius } => {
                let ghost before = self.tracks@;
                match self.tracks.remove(&id) {
                    Some(mut track) => {
                        assert(track == before[id]);
                        track.radius = new_radius;
                        self.tracks.insert(id, track);
                        assert(self.tracks@ =~= before.insert(id, track));
                    },
                    None => {
                        assert(self.tracks@ =~= before);
                    },
                }
                Some(Action::ResizeTrack(id, new_radius))
            },
            Message::TrackSelected(id) => {
                if id == self.selected_track {
                    None
                } else {
                    let deselected = self.selected_track;
                    self.selected_track = id;
                    Some(Action::ChangeSelection { deselected, selected: id })
                }
            },
        }
    }

    /// Queues a waypoint for the listener. When the last queued waypoint is
    /// one that `too_close` judges to overlap the new point (it is asked
    /// about the new point and the last waypoint, in that order), the new
    /// point takes its place; else it is added behind it.
    pub fn new_waypoint<F: Fn(V, V) -> bool>(&mut self, point: V, too_close: F)
        requires
            forall|a: V, b: V| #[trigger] too_close.requires((a, b)),
        ensures
            final(self)@ == (SoundscapeView { waypoints: final(self)@.waypoints, ..old(self)@ }),
            old(self)@.waypoints.len() == 0 ==> final(self)@.waypoints == seq![point],
            old(self)@.waypoints.len() > 0 ==> {
                let w = old(self)@.waypoints;
                ||| too_close.ensures((point, w.last()), true) && final(self)@.waypoints
                    == w.drop_last().push(point)
                ||| too_close.ensures((point, w.last()), false) && final(self)@.waypoints
                    == w.push(point)
            },
    {
        let n: usize = self.waypoints.len();
        if n > 0 {
            let last = self.waypoints[n - 1];
            if too_close(point, last) {
                self.waypoints.pop_back();
            }
        }
        self.waypoints.push_back(point);
    }

    /// Walks the listener one fixed time step along the waypoints: when a
    /// waypoint is queued, `step` gives the listener's next position from
    /// its position and the next waypoint; then waypoints are taken off the
    /// front of the queue as long as `reached` judges the front one reached
    /// (it is asked about that waypoint and the positions before and after
    /// the step). With no waypoint queued nothing changes.
    pub fn step_listener<F: Fn(V, V) -> V, G: Fn(V, V, V) -> bool>(&mut self, step: &F, reached: &G)
        requires
            forall|a: V, b: V| #[trigger] step.requires((a, b)),
            forall|a: V, b: V, c: V| #[trigger] reached.requires((a, b, c)),
        ensures
            final(self)@ == (SoundscapeView {
                listener: final(self)@.listener,
                waypoints: final(self)@.waypoints,
                ..old(self)@
            }),
            walk_step(
                old(self)@.listener,
                old(self)@.waypoints,
                final(self)@.listener,
                final(self)@.waypoints,
                *step,
                *reached,
            ),
            old(self)@.waypoints.len() == 0 ==> final(self)@ == old(self)@,
            old(self)@.waypoints.len() > 0 ==> step.ensures(
                (old(self)@.listener, old(self)@.waypoints[0]),
                final(self)@.listener,
            ),
            exists|k: int|
                0 <= k <= old(self)@.waypoints.len() && final(self)@.waypoints
                    == old(self)@.waypoints.skip(k) && (forall|i: int|
                    0 <= i < k ==> #[trigger] reached.ensures(
                        (old(self)@.waypoints[i], old(self)@.listener, final(self)@.listener),
                        true,
                    )),
    {
        if self.waypoints.len() == 0 {
            assert(self@.waypoints.skip(0) =~= self@.waypoints);
            return;
        }
        let ghost w0 = self.waypoints@;
        let before = self.listener;
        let next = self.waypoints[0];
        let after = step(before, next);
        self.listener = after;
        let ghost mut k: int = 0;
        assert(w0.skip(0) =~= w0);
        let mut done = false;
        while !done
            invariant
                forall|a: V, b: V, c: V| #[trigger] reached.requires((a, b, c)),
                self@ == (SoundscapeView {
                    listener: after,
                    waypoints: self@.waypoints,
                    ..old(self)@
                }),
                w0 == old(self)@.waypoints,
                k <= w0.len(),
                0 <= k,
                self@.waypoints == w0.skip(k),
                forall|i: int| 0 <= i < k ==> #[trigger] reached.ensures((w0[i], before, after), true),
                done ==> (k < w0.len() ==> reached.ensures((w0[k], before, after), false)),
            decreases w0.len() - k + (if done { 0int } else { 1int }),
        {
            if self.waypoints.len() == 0 {
                done = true;
            } else {
                let front = self.waypoints[0];
                assert(front == w0[k]);
                if reached(front, before, after) {
                    self.waypoints.pop_front();
                    assert(self@.waypoints =~= w0.skip(k + 1));
                    proof {
                        k = k + 1;
                    }
                } else {
                    done = true;
                }
            }
        }
    }

    /// Walks the listener `steps` fixed time steps along the waypoints, each
    /// as `step_listener` does. After at least one step the new listener
    /// position is passed on; with no step nothing changes.
    pub fn advance<F: Fn(V, V) -> V, G: Fn(V, V, V) -> bool>(
        &mut self,
        steps: u64,
        step: F,
        reached: G,
    ) -> (res: Option<Action<V, S>>)
        requires
            forall|a: V, b: V| #[trigger] step.requires((a, b)),
            forall|a: V, b: V, c: V| #[trigger] reached.requires((a, b, c)),
        ensures
            final(self)@ == (SoundscapeView {
                listener: final(self)@.listener,
                waypoints: final(self)@.waypoints,
                ..old(self)@
            }),
            steps == 0 ==> final(self)@ == old(self)@ && res is None,
            steps > 0 ==> res == Some(Action::<V, S>::MoveListener(final(self)@.listener)),
            walk(
                old(self)@.listener,
                old(self)@.waypoints,
                final(self)@.listener,
                final(self)@.waypoints,
                steps as nat,
                step,
                reached,
            ),
            exists|k: int|
                0 <= k <= old(self)@.waypoints.len() && final(self)@.waypoints
                    == old(self)@.waypoints.skip(k),
            old(self)@.waypoints.len() == 0 ==> final(self)@.listener == old(self)@.listener,
    {
        let ghost w0 = self.waypoints@;
        assert(w0.skip(0) =~= w0);
        let ghost mut trace: Seq<(V, Seq<V>)> = seq![(self@.listener, w0)];
        let mut i: u64 = 0;
        while i < steps
            invariant
                i <= steps,
                forall|a: V, b: V| #[trigger] step.requires((a, b)),
                forall|a: V, b: V, c: V| #[trigger] reached.requires((a, b, c)),
                self@ == (SoundscapeView {
                    listener: self@.listener,
                    waypoints: self@.waypoints,
                    ..old(self)@
                }),
                i == 0 ==> self@ == old(self)@,
                w0 == old(self)@.waypoints,
                exists|k: int| 0 <= k <= w0.len() && self@.waypoints == w0.skip(k),
                w0.len() == 0 ==> self@.listener == old(self)@.listener,
                is_walk(trace, step, reached),
                trace.len() == i + 1,
                trace[0] == (old(self)@.listener, w0),
                trace[i as int] == (self@.listener, self@.waypoints),
            decreases steps - i,
        {
            let ghost k0: int = choose|k: int| 0 <= k <= w0.len() && self@.waypoints == w0.skip(k);
            let ghost wb = self@.waypoints;
            self.step_listener(&step, &reached);
            proof {
                let old_trace = trace;
                trace = trace.push((self@.listener, self@.waypoints));
                assert(forall|j: int| 0 <= j < old_trace.len() ==> #[trigger] trace[j] == old_trace[j]);
                assert forall|j: int| 0 <= j < trace.len() - 1 implies walk_step(
                    #[trigger] trace[j].0,
                    trace[j].1,
                    trace[j + 1].0,
                    trace[j + 1].1,
                    step,
                    reached,
                ) by {
                    if j < old_trace.len() - 1 {
                        assert(trace[j + 1] == old_trace[j + 1]);
                    }
                }
                if wb.len() > 0 {
                    let k1: int = choose|k1: int|
                        0 <= k1 <= wb.len() && self@.waypoints == wb.skip(k1);
                    assert(self@.waypoints =~= w0.skip(k0 + k1));
                }
            }
            i = i + 1;
        }
        assert(is_walk(trace, step, reached));
        if steps > 0 {
            Some(Action::MoveListener(self.listener))
        } else {
            None
        }
    }

    pub fn listener_position(&self) -> (res: V)
        ensures
            res == self@.listener,
    {
        self.listener
    }

    pub fn camera(&self) -> (res: V)
        ensures
            res == self@.camera,
    {
        self.camera
    }

    pub fn scale(&self) -> (res: S)
        ensures
            res == self@.scale,
    {
        self.scale
    }

    /// The zones of the tracks, by id.
    pub fn tracks(&self) -> (res: &HashMap<u128, TrackZone<V, S>>)
        ensures
            res@ == self@.tracks,
    {
        &self.tracks
    }

    /// The waypoints, the next one first.
    pub fn waypoints(&self) -> (res: &VecDeque<V>)
        ensures
            res@ == self@.waypoints,
    {
        &self.waypoints
    }

    /// The id of the selected track, if any.
    pub fn selected_id(&self) -> (res: Option<u128>)
        ensures
            res == self@.selected,
    {
        self.selected_track
    }

    /// The zone of the selected track, if a track is selected and the
    /// soundscape holds it.
    pub fn selected_track(&self) -> (res: Option<&TrackZone<V, S>>)
        ensures
            match res {
                Some(z) => self@.selected is Some && self@.tracks.contains_key(self@.selected->0)
                    && *z == self@.tracks[self@.selected->0],
                None => self@.selected is None || !self@.tracks.contains_key(self@.selected->0),
            },
    {
        match self.selected_track {
            Some(id) => self.tracks.get(&id),
            None => None,
        }
    }
}

/// Picking the track that is already selected changes nothing: after a
/// track (or none) has been picked, picking it again leaves the soundscape
/// as it is and passes nothing on.
pub proof fn lemma_reselect_is_quiet<V, S>(s: SoundscapeView<V, S>, id: Option<u128>)
    ensures
        ({
            let once = next_view(s, Message::TrackSelected(id));
            &&& next_view(once, Message::TrackSelected(id)) == once
            &&& action_of(once, Message::<V, S>::TrackSelected(id)) is None
        }),
{
}

/// A change of selection names the track that lost it: picking another
/// track reports the previously selected one as deselected and the picked
/// one as selected, and makes the picked one the selection.
pub proof fn lemma_selection_change_reports_previous<V, S>(s: SoundscapeView<V, S>, id: Option<u128>)
    requires
        id != s.selected,
    ensures
        action_of(s, Message::<V, S>::TrackSelected(id)) == Some(
            Action::<V, S>::ChangeSelection { deselected: s.selected, selected: id },
        ),
        next_view(s, Message::<V, S>::TrackSelected(id)).selected == id,
{
}

/// Placing a track and taking it out again leaves no zone for it, and
/// leaves every other track's zone as it was; when the soundscape held no
/// zone for that id before, its zones are as they were.
pub proof fn lemma_place_then_remove<V, S>(
    s: SoundscapeView<V, S>,
    id: u128,
    name: String,
    position: V,
    radius: S,
)
    ensures
        ({
            let placed = next_view(s, Message::NewTrack { id, name, position, radius });
            let removed = next_view(placed, Message::TrackRemoved(id));
            &&& removed.tracks == s.tracks.remove(id)
            &&& !s.tracks.contains_key(id) ==> removed.tracks == s.tracks
        }),
{
    let placed = next_view(s, Message::NewTrack { id, name, position, radius });
    assert(placed.tracks.remove(id) =~= s.tracks.remove(id));
    if !s.tracks.contains_key(id) {
        assert(s.tracks.remove(id) =~= s.tracks);
    }
}

/// Moving a placed track changes only its position: the set of tracks, its
/// id, name and radius, and every other zone stay as they were.
pub proof fn lemma_move_changes_only_position<V, S>(s: SoundscapeView<V, S>, id: u128, new_position: V)
    requires
        s.tracks.contains_key(id),
    ensures
        ({
            let moved = next_view(s, Message::TrackMoved { id, new_position });
            &&& moved.tracks.dom() == s.tracks.dom()
            &&& moved.tracks[id].position == new_position
            &&& moved.tracks[id].id == s.tracks[id].id
            &&& moved.tracks[id].name == s.tracks[id].name
            &&& moved.tracks[id].radius == s.tracks[id].radius
            &&& forall|k: u128| k != id && s.tracks.contains_key(k) ==> moved.tracks[k] == s.tracks[k]
        }),
{
    let moved = next_view(s, Message::TrackMoved { id, new_position });
    assert(moved.tracks.dom() =~= s.tracks.dom());
}

/// Only picking a track changes the selection: every other message (a
/// move, a resize, placing or removing a track, panning or zooming) leaves
/// the selected id as it was, and leaves the listener and the waypoints
/// alone.
pub proof fn lemma_only_picking_selects<V, S>(s: SoundscapeView<V, S>, msg: Message<V, S>)
    ensures
        !(msg is TrackSelected) ==> next_view(s, msg).selected == s.selected,
        msg is TrackSelected ==> next_view(s, msg).selected == msg->TrackSelected_0,
        next_view(s, msg).listener == s.listener,
        next_view(s, msg).waypoints == s.waypoints,
{
}

/// Moving or resizing a track changes nothing but the tracks' zones: the
/// camera, its scale, the listener, the waypoints and the selection stay;
/// and the move or resize is passed on as it came.
pub proof fn lemma_track_edits_touch_only_zones<V, S>(
    s: SoundscapeView<V, S>,
    id: u128,
    p: V,
    r: S,
)
    ensures
        next_view(s, Message::<V, S>::TrackMoved { id, new_position: p }) == (SoundscapeView {
            tracks: next_view(s, Message::<V, S>::TrackMoved { id, new_position: p }).tracks,
            ..s
        }),
        next_view(s, Message::<V, S>::TrackResized { id, new_radius: r }) == (SoundscapeView {
            tracks: next_view(s, Message::<V, S>::TrackResized { id, new_radius: r }).tracks,
            ..s
        }),
        action_of(s, Message::<V, S>::TrackMoved { id, new_position: p }) == Some(
            Action::<V, S>::MoveTrack(id, p),
        ),
        action_of(s, Message::<V, S>::TrackResized { id, new_radius: r }) == Some(
            Action::<V, S>::ResizeTrack(id, r),
        ),
        s.tracks.contains_key(id) ==> next_view(
            s,
            Message::<V, S>::TrackResized { id, new_radius: r },
        ).tracks == s.tracks.insert(id, TrackZone { radius: r, ..s.tracks[id] }),
        !s.tracks.contains_key(id) ==> next_view(s, Message::<V, S>::TrackMoved { id, new_position: p }).tracks
            == s.tracks,
        !s.tracks.contains_key(id) ==> next_view(s, Message::<V, S>::TrackResized { id, new_radius: r }).tracks
            == s.tracks,
{
}

/// Panning sets the camera to the new position; zooming sets the scale and
/// moves the camera only when a position comes with it; neither touches
/// the tracks or passes anything on.
pub proof fn lemma_camera_messages<V, S>(s: SoundscapeView<V, S>, p: V, z: S, q: Option<V>)
    ensures
        next_view(s, Message::<V, S>::Translated { new_position: p }) == (SoundscapeView {
            camera: p,
            ..s
        }),
        next_view(s, Message::<V, S>::Scaled { new_scale: z, new_position: q }).scale == z,
        next_view(s, Message::<V, S>::Scaled { new_scale: z, new_position: q }).camera == (match q {
            Some(c) => c,
            None => s.camera,
        }),
        next_view(s, Message::<V, S>::Scaled { new_scale: z, new_position: q }).tracks == s.tracks,
        action_of(s, Message::<V, S>::Translated { new_position: p }) is None,
        action_of(s, Message::<V, S>::Scaled { new_scale: z, new_position: q }) is None,
{
}

/// Placing a track gives it the zone it came with, under its id, and
/// removing one takes its zone away; other zones stay.
pub proof fn lemma_place_and_remove_zones<V, S>(
    s: SoundscapeView<V, S>,
    id: u128,
    name: String,
    position: V,
    radius: S,
    other: u128,
)
    requires
        other != id,
    ensures
        next_view(s, Message::NewTrack { id, name, position, radius }).tracks[id] == (TrackZone {
            id,
            name,
            position,
            radius,
        }),
        next_view(s, Message::NewTrack { id, name, position, radius }).tracks.contains_key(id),
        !next_view(s, Message::<V, S>::TrackRemoved(id)).tracks.contains_key(id),
        s.tracks.contains_key(other) ==> next_view(s, Message::NewTrack { id, name, position, radius }).tracks[other]
            == s.tracks[other],
        s.tracks.contains_key(other) ==> next_view(s, Message::<V, S>::TrackRemoved(id)).tracks[other]
            == s.tracks[other],
        action_of(s, Message::NewTrack { id, name, position, radius }) is None,
        action_of(s, Message::<V, S>::TrackRemoved(id)) is None,
{
}

/// A step of the walk heads for the first waypoint in the queue: when
/// waypoints are queued, the listener's new position is what `step` gives
/// for its old position and the front waypoint, and the queue afterwards is
/// what is left of it once some of its front waypoints, each judged
/// reached, are dropped; with nothing queued the listener stays.
pub proof fn lemma_step_heads_for_front<V, F: Fn(V, V) -> V, G: Fn(V, V, V) -> bool>(
    listener: V,
    w: Seq<V>,
    next_listener: V,
    next_w: Seq<V>,
    step: F,
    reached: G,
)
    requires
        walk_step(listener, w, next_listener, next_w, step, reached),
    ensures
        w.len() > 0 ==> step.ensures((listener, w.first()), next_listener),
        w.len() == 0 ==> next_listener == listener && next_w == w,
        exists|k: int|
            0 <= k <= w.len() && next_w == w.skip(k) && forall|i: int|
                0 <= i < k ==> #[trigger] reached.ensures((w[i], listener, next_listener), true),
{
    if w.len() == 0 {
        assert(w.skip(0) =~= w);
    }
}

} // verus!
