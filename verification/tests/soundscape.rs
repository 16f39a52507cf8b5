use std::collections::{HashMap, VecDeque};

use resonant::soundscape::canvas::{grid_exponent, Gesture, MouseEvent, Probe, Response, State};
use resonant::soundscape::{Action, Message, Soundscape, TrackZone};

type V = (f32, f32);

fn empty() -> Soundscape<V, f32> {
    Soundscape::new((0.0, 0.0), 1.0)
}

fn place(s: &mut Soundscape<V, f32>, id: u128) {
    s.update(Message::NewTrack { id, name: format!("t{id}"), position: (id as f32, 0.0), radius: 10.0 });
}

#[test]
fn new_soundscape_is_empty() {
    let s = empty();
    assert_eq!(s.listener_position(), (0.0, 0.0));
    assert_eq!(s.camera(), (0.0, 0.0));
    assert_eq!(s.scale(), 1.0);
    assert!(s.tracks().is_empty());
    assert!(s.waypoints().is_empty());
    assert_eq!(s.selected_id(), None);
    assert!(s.selected_track().is_none());
}

#[test]
fn camera_messages() {
    let mut s = empty();
    assert_eq!(s.update(Message::Translated { new_position: (3.0, 4.0) }), None);
    assert_eq!(s.camera(), (3.0, 4.0));
    assert_eq!(s.update(Message::Scaled { new_scale: 2.0, new_position: None }), None);
    assert_eq!(s.scale(), 2.0);
    assert_eq!(s.camera(), (3.0, 4.0));
    s.update(Message::Scaled { new_scale: 0.5, new_position: Some((1.0, 1.0)) });
    assert_eq!(s.scale(), 0.5);
    assert_eq!(s.camera(), (1.0, 1.0));
}

#[test]
fn tracks_are_placed_moved_resized_and_removed() {
    let mut s = empty();
    place(&mut s, 1);
    place(&mut s, 2);
    assert_eq!(s.tracks().len(), 2);
    assert_eq!(s.update(Message::TrackMoved { id: 1, new_position: (9.0, 9.0) }), Some(Action::MoveTrack(1, (9.0, 9.0))));
    assert_eq!(s.tracks()[&1].position, (9.0, 9.0));
    assert_eq!(s.tracks()[&1].name, "t1");
    assert_eq!(s.update(Message::TrackResized { id: 2, new_radius: 4.0 }), Some(Action::ResizeTrack(2, 4.0)));
    assert_eq!(s.tracks()[&2].radius, 4.0);
    assert_eq!(s.update(Message::TrackRemoved(1)), None);
    assert!(!s.tracks().contains_key(&1));
    assert_eq!(s.tracks().len(), 1);
}

#[test]
fn moving_an_unknown_track_is_still_passed_on() {
    let mut s = empty();
    assert_eq!(s.update(Message::TrackMoved { id: 5, new_position: (1.0, 1.0) }), Some(Action::MoveTrack(5, (1.0, 1.0))));
    assert!(s.tracks().is_empty());
}

#[test]
fn selection_changes_are_reported_once() {
    let mut s = empty();
    place(&mut s, 1);
    place(&mut s, 2);
    assert_eq!(
        s.update(Message::TrackSelected(Some(1))),
        Some(Action::ChangeSelection { deselected: None, selected: Some(1) })
    );
    assert_eq!(s.update(Message::TrackSelected(Some(1))), None);
    assert_eq!(s.selected_track().map(|z| z.id), Some(1));
    assert_eq!(
        s.update(Message::TrackSelected(Some(2))),
        Some(Action::ChangeSelection { deselected: Some(1), selected: Some(2) })
    );
    assert_eq!(
        s.update(Message::TrackSelected(None)),
        Some(Action::ChangeSelection { deselected: Some(2), selected: None })
    );
    assert!(s.selected_track().is_none());
}

#[test]
fn selected_track_that_was_removed_has_no_zone() {
    let mut s = empty();
    place(&mut s, 3);
    s.update(Message::TrackSelected(Some(3)));
    s.update(Message::TrackRemoved(3));
    assert_eq!(s.selected_id(), Some(3));
    assert!(s.selected_track().is_none());
}

fn too_close(a: V, b: V) -> bool {
    let dx = a.0 - b.0;
    let dy = a.1 - b.1;
    dx * dx + dy * dy < 30.0 * 30.0
}

#[test]
fn waypoints_queue_and_replace_close_ones() {
    let mut s = empty();
    s.new_waypoint((100.0, 0.0), too_close);
    s.new_waypoint((200.0, 0.0), too_close);
    assert_eq!(s.waypoints().iter().copied().collect::<Vec<_>>(), vec![(100.0, 0.0), (200.0, 0.0)]);
    s.new_waypoint((210.0, 0.0), too_close);
    assert_eq!(s.waypoints().iter().copied().collect::<Vec<_>>(), vec![(100.0, 0.0), (210.0, 0.0)]);
}

fn step_towards(l: V, t: V) -> V {
    // one unit of distance per step along the x axis, for the test
    if t.0 > l.0 { (l.0 + 1.0, l.1) } else { (l.0 - 1.0, l.1) }
}

fn passed(t: V, before: V, after: V) -> bool {
    let d_before = (t.0 - before.0).abs();
    let d_after = (t.0 - after.0).abs();
    d_after < 1.0 || d_after > d_before
}

#[test]
fn advancing_walks_towards_waypoints_and_drops_reached_ones() {
    let mut s = empty();
    s.new_waypoint((2.0, 0.0), |_, _| false);
    s.new_waypoint((5.0, 0.0), |_, _| false);
    assert_eq!(s.advance(0, step_towards, passed), None);
    assert_eq!(s.listener_position(), (0.0, 0.0));
    assert_eq!(s.advance(2, step_towards, passed), Some(Action::MoveListener((2.0, 0.0))));
    assert_eq!(s.waypoints().len(), 1);
    assert_eq!(s.advance(10, step_towards, passed), Some(Action::MoveListener((5.0, 0.0))));
    assert!(s.waypoints().is_empty());
}

#[test]
fn advancing_without_waypoints_keeps_listener() {
    let mut s = empty();
    assert_eq!(s.advance(3, step_towards, passed), Some(Action::MoveListener((0.0, 0.0))));
}

#[test]
fn restored_soundscape() {
    let mut tracks = HashMap::new();
    tracks.insert(4u128, TrackZone { id: 4, name: String::from("x"), position: (1.0f32, 1.0f32), radius: 2.0f32 });
    let mut waypoints = VecDeque::new();
    waypoints.push_back((5.0f32, 5.0f32));
    let s = Soundscape::from_parts((0.5, 0.5), tracks, (2.0, 2.0), 1.5, waypoints);
    assert_eq!(s.listener_position(), (0.5, 0.5));
    assert_eq!(s.camera(), (2.0, 2.0));
    assert_eq!(s.scale(), 1.5);
    assert_eq!(s.tracks().len(), 1);
    assert_eq!(s.waypoints().len(), 1);
    assert_eq!(s.selected_id(), None);
}

fn probe(moved_far: bool, border: Option<(u128, V)>, under: Option<(u128, V)>) -> Probe<V> {
    Probe { moved_far, border, under, camera: (7.0, 7.0) }
}

#[test]
fn press_then_release_is_a_click() {
    let mut st: State<V> = State::default();
    assert_eq!(st, State::Idle);
    let r = st.handle_mouse_event(MouseEvent::LeftPressed, Some((10.0, 10.0)), false, probe(false, None, None));
    assert_eq!(r, Response::Ignore);
    assert_eq!(st, State::Pending { cursor_pos: (10.0, 10.0) });
    let r = st.handle_mouse_event(MouseEvent::CursorMoved { position: (11.0, 10.0) }, Some((11.0, 10.0)), false, probe(false, None, None));
    assert_eq!(r, Response::Ignore);
    let r = st.handle_mouse_event(MouseEvent::LeftReleased, Some((11.0, 10.0)), false, probe(false, None, None));
    assert_eq!(r, Response::Click((10.0, 10.0)));
    assert_eq!(st, State::Idle);
}

#[test]
fn press_over_levitating_layer_is_ignored() {
    let mut st: State<V> = State::Idle;
    st.handle_mouse_event(MouseEvent::LeftPressed, Some((1.0, 1.0)), true, probe(false, None, None));
    assert_eq!(st, State::Idle);
    st.handle_mouse_event(MouseEvent::LeftPressed, None, false, probe(false, None, None));
    assert_eq!(st, State::Idle);
}

#[test]
fn far_move_on_border_resizes() {
    let mut st: State<V> = State::Pending { cursor_pos: (0.0, 0.0) };
    let r = st.handle_mouse_event(MouseEvent::CursorMoved { position: (20.0, 0.0) }, None, false, probe(true, Some((9, (3.0, 3.0))), Some((8, (1.0, 1.0)))));
    assert_eq!(r, Response::Drag(Gesture::ResizeTrack { id: 9, cursor: (20.0, 0.0), track_position: (3.0, 3.0) }));
    assert_eq!(st, State::ResizingTrack { id: 9, track_position: (3.0, 3.0) });
    let r = st.handle_mouse_event(MouseEvent::CursorMoved { position: (25.0, 0.0) }, None, false, probe(false, None, None));
    assert_eq!(r, Response::Drag(Gesture::ResizeTrack { id: 9, cursor: (25.0, 0.0), track_position: (3.0, 3.0) }));
    assert_eq!(st.handle_mouse_event(MouseEvent::WheelScrolled, None, false, probe(false, None, None)), Response::Ignore);
    assert_eq!(st.handle_mouse_event(MouseEvent::LeftReleased, None, false, probe(false, None, None)), Response::Ignore);
    assert_eq!(st, State::Idle);
}

#[test]
fn far_move_over_track_moves_it() {
    let mut st: State<V> = State::Pending { cursor_pos: (0.0, 0.0) };
    let r = st.handle_mouse_event(MouseEvent::CursorMoved { position: (20.0, 0.0) }, None, false, probe(true, None, Some((8, (1.0, 1.0)))));
    assert_eq!(r, Response::Drag(Gesture::MoveTrack { id: 8, cursor_start: (0.0, 0.0), cursor: (20.0, 0.0), original_position: (1.0, 1.0) }));
    let r = st.handle_mouse_event(MouseEvent::CursorMoved { position: (30.0, 0.0) }, None, false, probe(true, None, None));
    assert_eq!(r, Response::Drag(Gesture::MoveTrack { id: 8, cursor_start: (0.0, 0.0), cursor: (30.0, 0.0), original_position: (1.0, 1.0) }));
}

#[test]
fn far_move_over_empty_plane_pans() {
    let mut st: State<V> = State::Pending { cursor_pos: (0.0, 0.0) };
    let r = st.handle_mouse_event(MouseEvent::CursorMoved { position: (0.0, 20.0) }, None, false, probe(true, None, None));
    assert_eq!(r, Response::Drag(Gesture::Pan { cursor_start: (0.0, 0.0), cursor: (0.0, 20.0), original_position: (7.0, 7.0) }));
    assert_eq!(st, State::Panning { cursor_start: (0.0, 0.0), original_position: (7.0, 7.0) });
    assert_eq!(st.handle_mouse_event(MouseEvent::WheelScrolled, None, false, probe(false, None, None)), Response::Zoom);
    assert_eq!(st.handle_mouse_event(MouseEvent::WheelScrolled, None, true, probe(false, None, None)), Response::Ignore);
    assert_eq!(st.handle_mouse_event(MouseEvent::Other, None, false, probe(false, None, None)), Response::Ignore);
}

#[test]
fn interaction_point_follows_state() {
    assert_eq!(State::<V>::Idle.interaction_point(Some((1.0, 2.0))), Some((1.0, 2.0)));
    assert_eq!(State::<V>::Idle.interaction_point(None), None);
    assert_eq!(State::Pending { cursor_pos: (3.0, 3.0) }.interaction_point(Some((1.0, 2.0))), Some((3.0, 3.0)));
    assert_eq!(State::Panning { cursor_start: (0.0, 0.0), original_position: (0.0, 0.0) }.interaction_point(Some((1.0, 2.0))), None);
}

#[test]
fn one_step_moves_and_drops_every_reached_waypoint() {
    let mut s = empty();
    s.new_waypoint((1.0, 0.0), |_, _| false);
    s.new_waypoint((1.0, 0.0), |_, _| false);
    s.new_waypoint((9.0, 0.0), |_, _| false);
    s.step_listener(&step_towards, &passed);
    assert_eq!(s.listener_position(), (1.0, 0.0));
    assert_eq!(s.waypoints().iter().copied().collect::<Vec<_>>(), vec![(9.0, 0.0)]);
}

#[test]
fn one_step_without_waypoints_changes_nothing() {
    let mut s = empty();
    s.step_listener(&step_towards, &passed);
    assert_eq!(s.listener_position(), (0.0, 0.0));
}

#[test]
fn grid_exponent_picks_the_one_farther_from_zero() {
    assert_eq!(grid_exponent(-2, 1), -2);
    assert_eq!(grid_exponent(0, 1), 1);
    assert_eq!(grid_exponent(-1, 1), 1);
    assert_eq!(grid_exponent(1, 0), 1);
    assert_eq!(grid_exponent(3, -3), -3);
    assert_eq!(grid_exponent(i32::MAX, -5), i32::MAX);
}
