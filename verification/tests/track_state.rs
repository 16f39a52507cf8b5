use resonant::track::looping;
use resonant::track::play_pause;
use resonant::track::progress;
use resonant::track::{play_plan, Effect, Message, PlayPlan, SoundStatus, TrackState};

type V = (f32, f32);

fn sample() -> TrackState<V, f32> {
    TrackState::new(7, String::from("rain"), (1.0, 2.0), 200.0, 30.0, 0.0)
}

#[test]
fn new_track_state() {
    let t = sample();
    assert_eq!(t.id(), 7);
    assert_eq!(t.name(), "rain");
    assert_eq!(t.position(), (1.0, 2.0));
    assert_eq!(t.radius(), 200.0);
    assert!(!t.is_selected());
    assert!(!t.play_pause().is_on());
    assert!(t.looping().is_on());
    assert_eq!(t.progress().duration(), 30.0);
}

#[test]
fn play_stops_seeking_and_asks_to_play() {
    let mut t = sample();
    t.update(Message::Progress(progress::Message::Pressed));
    assert!(t.progress().is_seeking());
    let e = t.update(Message::PlayPause(play_pause::Message::Press(true)));
    assert_eq!(e, Effect::Play);
    assert!(t.play_pause().is_on());
    assert!(!t.progress().is_seeking());
    let e = t.update(Message::PlayPause(play_pause::Message::Press(false)));
    assert_eq!(e, Effect::Pause);
}

#[test]
fn release_of_progress_bar_seeks() {
    let mut t = sample();
    assert_eq!(t.update(Message::Progress(progress::Message::Moved(12.0))), Effect::Nothing);
    assert_eq!(t.update(Message::Progress(progress::Message::Pressed)), Effect::Nothing);
    assert_eq!(t.update(Message::Progress(progress::Message::Released)), Effect::Seek(12.0));
}

#[test]
fn looping_switch_effect() {
    let mut t = sample();
    assert_eq!(t.update(Message::Loop(looping::Message::Pressed(false))), Effect::SetLooping(false));
    assert!(!t.looping().is_on());
    assert_eq!(t.update(Message::Loop(looping::Message::Pressed(true))), Effect::SetLooping(true));
}

#[test]
fn selection_is_recorded() {
    let mut t = sample();
    assert_eq!(t.update(Message::Selected(true)), Effect::Nothing);
    assert!(t.is_selected());
}

#[test]
fn geometry_changes_reattenuate() {
    let mut t = sample();
    let e = t.update(Message::Moved { new_position: (5.0, 5.0), listener_position: (0.0, 1.0) });
    assert_eq!(e, Effect::Attenuate((0.0, 1.0)));
    assert_eq!(t.position(), (5.0, 5.0));
    let e = t.update(Message::Resized { new_radius: 50.0, listener_position: (0.0, 2.0) });
    assert_eq!(e, Effect::Attenuate((0.0, 2.0)));
    assert_eq!(t.radius(), 50.0);
    assert_eq!(t.update(Message::ListenerMoved((3.0, 3.0))), Effect::Attenuate((3.0, 3.0)));
    assert_eq!(t.position(), (5.0, 5.0));
}

#[test]
fn remove_request() {
    let mut t = sample();
    assert_eq!(t.update(Message::RemoveRequested), Effect::Remove);
    assert_eq!(t.id(), 7);
}

#[test]
fn play_plan_by_sound_status() {
    assert_eq!(play_plan(SoundStatus::Live), PlayPlan::Resume);
    assert_eq!(play_plan(SoundStatus::Loaded), PlayPlan::PlayLoaded);
    assert_eq!(play_plan(SoundStatus::Ended), PlayPlan::Reload);
    assert_eq!(play_plan(SoundStatus::Absent), PlayPlan::Reload);
}
