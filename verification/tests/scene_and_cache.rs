use resonant::audio_cache::{file_hash, same_hash, AudioCache};
use resonant::scene::{follow_up, loaded, placement, removal, resolve_audio, Dispatch, FollowUp, SceneError};
use resonant::soundscape::{self, Action};
use resonant::track::{self, TrackState};

type V = (f32, f32);

#[test]
fn moved_track_is_told_then_selected() {
    let f: FollowUp<V, f32> = follow_up(Action::MoveTrack(3, (1.0, 2.0)), (9.0, 9.0), &vec![1, 3]);
    assert_eq!(
        f,
        FollowUp::Chain(vec![
            Dispatch::Track(track::Message::Moved { new_position: (1.0, 2.0), listener_position: (9.0, 9.0) }, 3),
            Dispatch::Soundscape(soundscape::Message::TrackSelected(Some(3))),
        ])
    );
}

#[test]
fn resized_track_is_told() {
    let f: FollowUp<V, f32> = follow_up(Action::ResizeTrack(3, 12.0), (9.0, 9.0), &vec![]);
    assert_eq!(
        f,
        FollowUp::Chain(vec![Dispatch::Track(
            track::Message::Resized { new_radius: 12.0, listener_position: (9.0, 9.0) },
            3
        )])
    );
}

#[test]
fn moved_listener_is_told_to_every_track_in_order() {
    let f: FollowUp<V, f32> = follow_up(Action::MoveListener((4.0, 4.0)), (0.0, 0.0), &vec![5, 2, 8]);
    assert_eq!(
        f,
        FollowUp::Batch(vec![
            Dispatch::Track(track::Message::ListenerMoved((4.0, 4.0)), 5),
            Dispatch::Track(track::Message::ListenerMoved((4.0, 4.0)), 2),
            Dispatch::Track(track::Message::ListenerMoved((4.0, 4.0)), 8),
        ])
    );
}

#[test]
fn selection_change_deselects_first() {
    let f: FollowUp<V, f32> =
        follow_up(Action::ChangeSelection { deselected: Some(1), selected: Some(2) }, (0.0, 0.0), &vec![1, 2]);
    assert_eq!(
        f,
        FollowUp::Chain(vec![
            Dispatch::Track(track::Message::Selected(false), 1),
            Dispatch::Track(track::Message::Selected(true), 2),
        ])
    );
    let f: FollowUp<V, f32> =
        follow_up(Action::ChangeSelection { deselected: None, selected: None }, (0.0, 0.0), &vec![1, 2]);
    assert_eq!(f, FollowUp::Chain(vec![]));
}

#[test]
fn loaded_scene_tells_every_track_the_listener() {
    let f: FollowUp<V, f32> = loaded((1.0, 1.0), &vec![4]);
    assert_eq!(f, FollowUp::Batch(vec![Dispatch::Track(track::Message::ListenerMoved((1.0, 1.0)), 4)]));
    let f: FollowUp<V, f32> = loaded((1.0, 1.0), &vec![]);
    assert_eq!(f, FollowUp::Batch(vec![]));
}

#[test]
fn removal_and_placement_messages() {
    let d: Dispatch<V, f32> = removal(6);
    assert_eq!(d, Dispatch::Soundscape(soundscape::Message::TrackRemoved(6)));
    let t: TrackState<V, f32> = TrackState::new(6, String::from("wind"), (2.0, 3.0), 150.0, 10.0, 0.0);
    assert_eq!(
        placement(&t),
        soundscape::Message::NewTrack { id: 6, name: String::from("wind"), position: (2.0, 3.0), radius: 150.0 }
    );
}

fn h(b: u8) -> [u8; 32] {
    [b; 32]
}

#[test]
fn resolve_audio_pairs_tracks_with_last_matching_audio() {
    let res = resolve_audio(&vec![h(2), h(1), h(2)], &vec![h(1), h(2), h(3), h(2)]);
    assert_eq!(res, Ok(vec![3, 0, 3]));
    assert_eq!(resolve_audio(&vec![], &vec![h(1)]), Ok(vec![]));
}

#[test]
fn resolve_audio_names_first_missing_track() {
    let res = resolve_audio(&vec![h(1), h(4), h(5)], &vec![h(1), h(2)]);
    assert_eq!(res, Err(SceneError::MissingAudio { track: 1 }));
}

#[test]
fn file_hash_is_blake3() {
    let expected_empty: [u8; 32] = [
        0xaf, 0x13, 0x49, 0xb9, 0xf5, 0xf9, 0xa1, 0xa6, 0xa0, 0x40, 0x4d, 0xea, 0x36, 0xdc, 0xc9, 0x49, 0x9b, 0xcb,
        0x25, 0xc9, 0xad, 0xc1, 0x12, 0xb7, 0xcc, 0x9a, 0x93, 0xca, 0xe4, 0x1f, 0x32, 0x62,
    ];
    assert_eq!(file_hash(b""), expected_empty);
    let data = [7u8; 32];
    assert_ne!(file_hash(&data), data);
    assert_eq!(file_hash(b"abc"), *blake3::hash(b"abc").as_bytes());
}

#[test]
fn same_hash_compares_all_bytes() {
    let a = h(1);
    let mut b = h(1);
    assert!(same_hash(&a, &b));
    b[31] = 0;
    assert!(!same_hash(&a, &b));
}

#[test]
fn registering_the_same_audio_twice_creates_one_entry() {
    let mut cache: AudioCache<u64> = AudioCache::new();
    let mut created: u32 = 0;
    let first = cache.get_or_register(b"sound one", |_, _| -> Result<u64, ()> {
        created += 1;
        Ok(100)
    });
    assert_eq!(first, Ok(100));
    let again = cache.get_or_register(b"sound one", |_, _| -> Result<u64, ()> {
        created += 1;
        Ok(200)
    });
    assert_eq!(again, Ok(100));
    assert_eq!(created, 1);
    assert!(cache.contains(&file_hash(b"sound one")));
    assert_eq!(cache.get(&file_hash(b"sound one")), Some(&100));
}

#[test]
fn different_audio_gets_its_own_entry_with_its_digest() {
    let mut cache: AudioCache<[u8; 32]> = AudioCache::new();
    let a = cache.get_or_register(b"a", |hash, _| -> Result<[u8; 32], ()> { Ok(hash) }).unwrap();
    let b = cache.get_or_register(b"b", |hash, _| -> Result<[u8; 32], ()> { Ok(hash) }).unwrap();
    assert_eq!(a, file_hash(b"a"));
    assert_eq!(b, file_hash(b"b"));
    assert_ne!(a, b);
}

#[test]
fn failed_registration_leaves_cache_unchanged() {
    let mut cache: AudioCache<u64> = AudioCache::new();
    let res = cache.get_or_register(b"broken", |_, _| -> Result<u64, &'static str> { Err("disk full") });
    assert_eq!(res, Err("disk full"));
    assert!(!cache.contains(&file_hash(b"broken")));
    assert_eq!(cache.get(&file_hash(b"broken")), None);
}

#[test]
fn subset_picks_requested_registered_audio_once() {
    let mut cache: AudioCache<u64> = AudioCache::new();
    cache.get_or_register_hash(h(1), |_, _| -> Result<u64, ()> { Ok(10) }).unwrap();
    cache.get_or_register_hash(h(2), |_, _| -> Result<u64, ()> { Ok(20) }).unwrap();
    cache.get_or_register_hash(h(3), |_, _| -> Result<u64, ()> { Ok(30) }).unwrap();
    let mut sub = cache.subset(&vec![h(3), h(1), h(3), h(9)]);
    sub.sort();
    assert_eq!(sub, vec![(h(1), 10), (h(3), 30)]);
    assert!(cache.subset(&vec![]).is_empty());
}

#[test]
fn new_entries_get_distinct_identifiers() {
    let mut cache: AudioCache<u128> = AudioCache::new();
    let a = cache.get_or_register(b"first", |_, id| -> Result<u128, ()> { Ok(id) }).unwrap();
    let b = cache.get_or_register(b"second", |_, id| -> Result<u128, ()> { Ok(id) }).unwrap();
    assert_ne!(a, b);
    assert_eq!(cache.get_or_register(b"first", |_, id| -> Result<u128, ()> { Ok(id) }), Ok(a));
}
