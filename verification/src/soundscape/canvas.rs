use vstd::prelude::*;

verus! {

/// Where a drag on the soundscape stands; `V` is the type of a position on
/// the screen.
#[derive(Debug, Clone, Copy, PartialEq)]
pub enum State<V> {
    /// No button is held.
    Idle,
    /// The button was pressed here and the cursor has not gone far yet.
    Pending { cursor_pos: V },
    /// The camera is dragged; it started at `original_position`.
    Panning { cursor_start: V, original_position: V },
    /// A track is dragged; it started at `original_position`.
    MovingTrack { id: u128, cursor_start: V, original_position: V },
    /// A track's reach is dragged; the track sits at `track_position`.
    ResizingTrack { id: u128, track_position: V },
}

impl<V> Default for State<V> {
    fn default() -> (res: Self)
        ensures
            res == State::<V>::Idle,
    {
        State::Idle
    }
}

/// A mouse event, as far as the soundscape tells them apart.
#[derive(Debug, Clone, Copy, PartialEq)]
pub enum MouseEvent<V> {
    /// The cursor moved to this position.
    CursorMoved { position: V },
    /// The left button went down.
    LeftPressed,
    /// The left button went up.
    LeftReleased,
    /// The wheel turned.
    WheelScrolled,
    /// Anything else.
    Other,
}

/// What the owner found on the plane around a pending press, for the case
/// that the cursor moved: whether it went beyond the threshold from where
/// it was pressed, the selected track (its id and position) if the press
/// was on the border of its zone, a track whose zone holds the cursor's
/// position, and the camera's position.
#[derive(Debug, Clone, Copy, PartialEq)]
pub struct Probe<V> {
    pub moved_far: bool,
    pub border: Option<(u128, V)>,
    pub under: Option<(u128, V)>,
    pub camera: V,
}

/// A drag step the owner turns into a new camera position, track position
/// or radius.
#[derive(Debug, Clone, Copy, PartialEq)]
pub enum Gesture<V> {
    /// Pan the camera by the cursor's way from `cursor_start` to `cursor`.
    Pan { cursor_start: V, cursor: V, original_position: V },
    /// Move the track by the cursor's way from `cursor_start` to `cursor`.
    MoveTrack { id: u128, cursor_start: V, cursor: V, original_position: V },
    /// Give the track the radius that reaches the cursor.
    ResizeTrack { id: u128, cursor: V, track_position: V },
}

/// What the owner has to do with a mouse event.
#[derive(Debug, Clone, Copy, PartialEq)]
pub enum Response<V> {
    /// Nothing.
    Ignore,
    /// Carry out a drag step.
    Drag(Gesture<V>),
    /// A click at this position: select the track there, or none.
    Click(V),
    /// Zoom around the cursor.
    Zoom,
}

/// The state and response after a cursor move to `position` in state `s`.
pub open spec fn on_moved<V>(s: State<V>, position: V, probe: Probe<V>) -> (State<V>, Response<V>) {
    match s {
        State::Idle => (s, Response::Ignore),
        State::Pending { cursor_pos } => if !probe.moved_far {
            (s, Response::Ignore)
        } else if probe.border is Some {
            let (id, track_position) = probe.border->0;
            (
                State::ResizingTrack { id, track_position },
                Response::Drag(Gesture::ResizeTrack { id, cursor: position, track_position }),
            )
        } else if probe.under is Some {
            let (id, original_position) = probe.under->0;
            (
                State::MovingTrack { id, cursor_start: cursor_pos, original_position },
                Response::Drag(
                    Gesture::MoveTrack {
                        id,
                        cursor_start: cursor_pos,
                        cursor: position,
                        original_position,
                    },
                ),
            )
        } else {
            (
                State::Panning { cursor_start: cursor_pos, original_position: probe.camera },
                Response::Drag(
                    Gesture::Pan {
                        cursor_start: cursor_pos,
                        cursor: position,
                        original_position: probe.camera,
                    },
                ),
            )
        },
        State::Panning { cursor_start, original_position } => (
            s,
            Response::Drag(Gesture::Pan { cursor_start, cursor: position, original_position }),
        ),
        State::MovingTrack { id, cursor_start, original_position } => (
            s,
            Response::Drag(
                Gesture::MoveTrack { id, cursor_start, cursor: position, original_position },
            ),
        ),
        State::ResizingTrack { id, track_position } => (
            s,
            Response::Drag(Gesture::ResizeTrack { id, cursor: position, track_position }),
        ),
    }
}

/// The state and response after `event` in state `s`, the cursor at
/// `cursor` (if over the soundscape) and levitating over another layer or
/// not.
pub open spec fn transition<V>(
    s: State<V>,
    event: MouseEvent<V>,
    cursor: Option<V>,
    levitating: bool,
    probe: Probe<V>,
) -> (State<V>, Response<V>) {
    match event {
        MouseEvent::CursorMoved { position } => on_moved(s, position, probe),
        MouseEvent::LeftPressed => if !levitating && cursor is Some {
            (State::Pending { cursor_pos: cursor->0 }, Response::Ignore)
        } else {
            (s, Response::Ignore)
        },
        MouseEvent::LeftReleased => (
            State::Idle,
            match s {
                State::Pending { cursor_pos } => Response::Click(cursor_pos),
                _ => Response::Ignore,
            },
        ),
        MouseEvent::WheelScrolled => (
            s,
            if !levitating && (s is Idle || s is Pending || s is Panning) {
                Response::Zoom
            } else {
                Response::Ignore
            },
        ),
        MouseEvent::Other => (s, Response::Ignore),
    }
}

impl<V: Copy> State<V> {
    /// Handles a mouse event: a press starts a pending drag, a move beyond
    /// the threshold turns it into a resize (on the selected track's
    /// border), a track move (over a track) or a pan, a release of a press
    /// that never went far is a click, and the wheel zooms unless a track is
    /// dragged.
    pub fn handle_mouse_event(
        &mut self,
        event: MouseEvent<V>,
        cursor: Option<V>,
        levitating: bool,
        probe: Probe<V>,
    ) -> (res: Response<V>)
        ensures
            (*final(self), res) == transition(*old(self), event, cursor, levitating, probe),
            (event is WheelScrolled) ==> (*final(self) == *old(self)),
            (event is WheelScrolled && !levitating && !(*old(self) is MovingTrack) && !(*old(
                self,
            ) is ResizingTrack)) ==> (res == Response::<V>::Zoom),
            (event is WheelScrolled && (levitating || *old(self) is MovingTrack || *old(
                self,
            ) is ResizingTrack)) ==> (res == Response::<V>::Ignore),
            (event is LeftReleased) ==> (*final(self) == State::<V>::Idle),
            (event is LeftPressed && !levitating && cursor is Some) ==> (*final(self) == (State::Pending {
                cursor_pos: cursor->0,
            }) && res == Response::<V>::Ignore),
            (event is Other) ==> (*final(self) == *old(self) && res == Response::<V>::Ignore),
    {
        match event {
            MouseEvent::CursorMoved { position } => self.handle_mouse_moved(position, probe),
            MouseEvent::LeftPressed => {
                if !levitating {
                    if let Some(position) = cursor {
                        *self = State::Pending { cursor_pos: position };
                    }
                }
                Response::Ignore
            },
            MouseEvent::LeftReleased => {
                let res = match *self {
                    State::Pending { cursor_pos } => Response::Click(cursor_pos),
                    _ => Response::Ignore,
                };
                *self = State::Idle;
                res
            },
            MouseEvent::WheelScrolled => {
                if levitating {
                    Response::Ignore
                } else {
                    match *self {
                        State::Idle | State::Pending { .. } | State::Panning { .. } => Response::Zoom,
                        _ => Response::Ignore,
                    }
                }
            },
            MouseEvent::Other => Response::Ignore,
        }
    }

    fn handle_mouse_moved(&mut self, position: V, probe: Probe<V>) -> (res: Response<V>)
        ensures
            (*final(self), res) == on_moved(*old(self), position, probe),
    {
        match *self {
            State::Idle => Response::Ignore,
            State::Pending { cursor_pos } => {
                if !probe.moved_far {
                    return Response::Ignore;
                }
                if let Some((id, track_position)) = probe.border {
                    *self = State::ResizingTrack { id, track_position };
                    Response::Drag(Gesture::ResizeTrack { id, cursor: position, track_position })
                } else if let Some((id, original_position)) = probe.under {
                    *self = State::MovingTrack { id, cursor_start: cursor_pos, original_position };
                    Response::Drag(
                        Gesture::MoveTrack {
                            id,
                            cursor_start: cursor_pos,
                            cursor: position,
                            original_position,
                        },
                    )
                } else {
                    *self = State::Panning { cursor_start: cursor_pos, original_position: probe.camera };
                    Response::Drag(
                        Gesture::Pan {
                            cursor_start: cursor_pos,
                            cursor: position,
                            original_position: probe.camera,
                        },
                    )
                }
            },
            State::Panning { cursor_start, original_position } => Response::Drag(
                Gesture::Pan { cursor_start, cursor: position, original_position },
            ),
            State::MovingTrack { id, cursor_start, original_position } => Response::Drag(
                Gesture::MoveTrack { id, cursor_start, cursor: position, original_position },
            ),
            State::ResizingTrack { id, track_position } => Response::Drag(
                Gesture::ResizeTrack { id, cursor: position, track_position },
            ),
        }
    }

    /// The screen position at which the cursor's look is decided: the
    /// cursor itself when no button is held, the press position while a
    /// press is pending; during a drag, none (the cursor keeps its plain
    /// look).
    pub fn interaction_point(&self, cursor: Option<V>) -> (res: Option<V>)
        ensures
            res == (match *self {
                State::Idle => cursor,
                State::Pending { cursor_pos } => Some(cursor_pos),
                _ => None,
            }),
    {
        match *self {
            State::Idle => cursor,
            State::Pending { cursor_pos } => Some(cursor_pos),
            _ => None,
        }
    }
}

/// The absolute value of `n`.
pub open spec fn abs_int(n: int) -> int {
    if n < 0 {
        -n
    } else {
        n
    }
}

/// Of the two candidate exponents for the grid spacing (the smallest
/// power of two whose lines are not too close, and the largest whose lines
/// are not too far apart), the one farther from zero; the second one when
/// both are as far.
pub fn grid_exponent(n_min: i32, n_max: i32) -> (res: i32)
    requires
        n_min != i32::MIN,
        n_max != i32::MIN,
    ensures
        res == (if abs_int(n_min as int) > abs_int(n_max as int) {
            n_min
        } else {
            n_max
        }),
{
    let a: i32 = if n_min < 0 { -n_min } else { n_min };
    let b: i32 = if n_max < 0 { -n_max } else { n_max };
    if a > b {
        n_min
    } else {
        n_max
    }
}

/// Letting go of the button always ends the drag, and reports a click only
/// for a press whose cursor never went far: at the place it was pressed.
pub proof fn lemma_release_ends_drag<V>(s: State<V>, cursor: Option<V>, levitating: bool, probe: Probe<V>)
    ensures
        transition(s, MouseEvent::LeftReleased, cursor, levitating, probe).0 == State::<V>::Idle,
        match s {
            State::Pending { cursor_pos } => transition(
                s,
                MouseEvent::LeftReleased,
                cursor,
                levitating,
                probe,
            ).1 == Response::Click(cursor_pos),
            _ => transition(s, MouseEvent::LeftReleased, cursor, levitating, probe).1
                == Response::<V>::Ignore,
        },
{
}

/// A press stays pending, and nothing is dragged, while the cursor stays
/// within the threshold of where it was pressed.
pub proof fn lemma_small_moves_keep_press_pending<V>(cursor_pos: V, position: V, probe: Probe<V>)
    requires
        !probe.moved_far,
    ensures
        on_moved(State::Pending { cursor_pos }, position, probe) == (
            State::Pending { cursor_pos },
            Response::<V>::Ignore,
        ),
{
}

/// While a track is moved or resized, the wheel does not zoom.
pub proof fn lemma_no_zoom_while_dragging_track<V>(s: State<V>, cursor: Option<V>, levitating: bool, probe: Probe<V>)
    requires
        s is MovingTrack || s is ResizingTrack,
    ensures
        transition(s, MouseEvent::WheelScrolled, cursor, levitating, probe) == (s, Response::<V>::Ignore),
{
}

/// The wheel zooms whenever no track is being moved or resized and the
/// cursor is not over another layer, whatever else the state is (no button
/// held, a pending press, or a pan); the drag state is left as it is.
pub proof fn lemma_wheel_zooms_unless_dragging_track<V>(
    s: State<V>,
    cursor: Option<V>,
    probe: Probe<V>,
)
    requires
        !(s is MovingTrack),
        !(s is ResizingTrack),
    ensures
        transition(s, MouseEvent::WheelScrolled, cursor, false, probe) == (s, Response::<V>::Zoom),
        transition(State::<V>::Idle, MouseEvent::WheelScrolled, cursor, false, probe) == (
            State::<V>::Idle,
            Response::<V>::Zoom,
        ),
        transition(s, MouseEvent::WheelScrolled, cursor, true, probe) == (s, Response::<V>::Ignore),
{
}

/// Pressing the button over the canvas (not over another layer) starts a
/// pending press at the cursor, whatever the state was; elsewhere, or
/// without a cursor, it changes nothing.
pub proof fn lemma_press_starts_pending<V>(s: State<V>, cursor: Option<V>, levitating: bool, probe: Probe<V>)
    ensures
        (!levitating && cursor is Some) ==> transition(s, MouseEvent::LeftPressed, cursor, levitating, probe)
            == (State::Pending { cursor_pos: cursor->0 }, Response::<V>::Ignore),
        (levitating || cursor is None) ==> transition(s, MouseEvent::LeftPressed, cursor, levitating, probe)
            == (s, Response::<V>::Ignore),
{
}

/// Once the cursor goes far from a pending press, the drag is decided by
/// what lies under the press: the selected track's border gives a resize of
/// that track, else a track under the cursor gives a move of it from its
/// position, else the camera is panned from its position; each time the
/// drag starts at the press position and follows the cursor.
pub proof fn lemma_far_move_decides_drag<V>(cursor_pos: V, position: V, probe: Probe<V>)
    requires
        probe.moved_far,
    ensures
        probe.border is Some ==> on_moved(State::Pending { cursor_pos }, position, probe) == (
            State::ResizingTrack { id: (probe.border->0).0, track_position: (probe.border->0).1 },
            Response::Drag(
                Gesture::ResizeTrack {
                    id: (probe.border->0).0,
                    cursor: position,
                    track_position: (probe.border->0).1,
                },
            ),
        ),
        (probe.border is None && probe.under is Some) ==> on_moved(
            State::Pending { cursor_pos },
            position,
            probe,
        ) == (
            State::MovingTrack {
                id: (probe.under->0).0,
                cursor_start: cursor_pos,
                original_position: (probe.under->0).1,
            },
            Response::Drag(
                Gesture::MoveTrack {
                    id: (probe.under->0).0,
                    cursor_start: cursor_pos,
                    cursor: position,
                    original_position: (probe.under->0).1,
                },
            ),
        ),
        (probe.border is None && probe.under is None) ==> on_moved(
            State::Pending { cursor_pos },
            position,
            probe,
        ) == (
            State::Panning { cursor_start: cursor_pos, original_position: probe.camera },
            Response::Drag(
                Gesture::Pan {
                    cursor_start: cursor_pos,
                    cursor: position,
                    original_position: probe.camera,
                },
            ),
        ),
{
}

/// While a drag is under way, moving the cursor keeps the drag as it is
/// and reports the drag step to the new cursor position; with no button
/// held a move does nothing.
pub proof fn lemma_drag_follows_cursor<V>(
    s: State<V>,
    position: V,
    probe: Probe<V>,
)
    ensures
        s is Idle ==> on_moved(s, position, probe) == (s, Response::<V>::Ignore),
        s is Panning ==> on_moved(s, position, probe) == (
            s,
            Response::Drag(
                Gesture::Pan {
                    cursor_start: s->Panning_cursor_start,
                    cursor: position,
                    original_position: s->Panning_original_position,
                },
            ),
        ),
        s is MovingTrack ==> on_moved(s, position, probe) == (
            s,
            Response::Drag(
                Gesture::MoveTrack {
                    id: s->MovingTrack_id,
                    cursor_start: s->MovingTrack_cursor_start,
                    cursor: position,
                    original_position: s->MovingTrack_original_position,
                },
            ),
        ),
        s is ResizingTrack ==> on_moved(s, position, probe) == (
            s,
            Response::Drag(
                Gesture::ResizeTrack {
                    id: s->ResizingTrack_id,
                    cursor: position,
                    track_position: s->ResizingTrack_track_position,
                },
            ),
        ),
{
}

} // verus!
