use resonant::track::looping::{self, Loop};
use resonant::track::play_pause::{self, PlayPause};
use resonant::track::progress::{self, Progress};

#[test]
fn loop_starts_on() {
    let l = Loop::new();
    assert!(l.is_on());
    assert!(Loop::default().is_on());
}

#[test]
fn loop_follows_the_pressed_state() {
    let mut l = Loop::new();
    assert_eq!(l.update(looping::Message::Pressed(false)), looping::Action::Disable);
    assert!(!l.is_on());
    assert_eq!(l.update(looping::Message::Pressed(true)), looping::Action::Enable);
    assert!(l.is_on());
}

#[test]
fn loop_press_flips() {
    let mut l = Loop::new();
    let msg = l.message(l.is_on());
    assert_eq!(msg, looping::Message::Pressed(false));
    assert_eq!(l.update(msg), looping::Action::Disable);
    assert!(!l.is_on());
    let msg = l.message(l.is_on());
    assert_eq!(l.update(msg), looping::Action::Enable);
    assert!(l.is_on());
}

#[test]
fn play_pause_starts_paused() {
    assert!(!PlayPause::new().is_on());
    assert!(!PlayPause::default().is_on());
}

#[test]
fn play_pause_press_flips() {
    let mut p = PlayPause::new();
    let msg = p.message(p.is_on());
    assert_eq!(msg, play_pause::Message::Press(true));
    assert_eq!(p.update(msg), play_pause::Action::Play);
    assert!(p.is_on());
    assert_eq!(p.update(play_pause::Message::Press(false)), play_pause::Action::Pause);
    assert!(!p.is_on());
}

#[test]
fn progress_starts_at_start() {
    let p = Progress::new(12.5f32, 0.0);
    assert_eq!(p.duration(), 12.5);
    assert_eq!(p.offset(), 0.0);
    assert!(!p.is_holding());
    assert!(!p.is_seeking());
    assert_eq!(p.shown_value(4.0), 4.0);
}

#[test]
fn progress_moving_without_holding_keeps_offset() {
    let mut p = Progress::new(10.0f32, 0.0);
    assert_eq!(p.update(progress::Message::Moved(3.0), false), None);
    assert_eq!(p.offset(), 0.0);
    assert!(!p.is_seeking());
}

#[test]
fn progress_drag_seeks_to_release_point() {
    let mut p = Progress::new(10.0f32, 0.0);
    assert_eq!(p.update(progress::Message::Moved(3.0), true), None);
    assert_eq!(p.update(progress::Message::Pressed, true), None);
    assert_eq!(p.offset(), 3.0);
    assert!(p.is_holding());
    assert!(p.is_seeking());
    assert_eq!(p.update(progress::Message::Moved(7.5), true), None);
    assert_eq!(p.offset(), 7.5);
    assert_eq!(p.shown_value(1.0), 7.5);
    assert_eq!(p.update(progress::Message::Released, true), Some(progress::Action::Release));
    assert!(!p.is_holding());
    assert!(p.is_seeking());
    assert_eq!(p.offset(), 7.5);
}

#[test]
fn progress_settled_seek_returns_to_playback_only_when_playing_and_released() {
    let mut p = Progress::new(10.0f32, 0.0);
    p.update(progress::Message::Pressed, true);
    // still held: stays seeking
    assert_eq!(p.update(progress::Message::Seeked, true), None);
    assert!(p.is_seeking());
    p.update(progress::Message::Released, true);
    // not playing: stays seeking
    p.update(progress::Message::Seeked, false);
    assert!(p.is_seeking());
    // playing and released: follows playback again
    p.update(progress::Message::Seeked, true);
    assert!(!p.is_seeking());
    assert_eq!(p.shown_value(2.0), 2.0);
}

#[test]
fn progress_stop_seeking() {
    let mut p = Progress::new(10.0f32, 0.0);
    p.update(progress::Message::Pressed, false);
    p.stop_seeking();
    assert!(!p.is_seeking());
    assert!(p.is_holding());
}

#[test]
fn progress_debounce_interval() {
    assert_eq!(Progress::<f32>::DEBOUNCE_INTERVAL, 500);
}
