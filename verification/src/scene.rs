use vstd::prelude::*;

use crate::audio_cache::same_hash;
use crate::soundscape;
use crate::track::{self, TrackState};

verus! {

/// A message that the scene hands on to one of its parts.
#[derive(Debug, Clone, PartialEq)]
pub enum Dispatch<V, S> {
    /// To the track with this id.
    Track(track::Message<V, S>, u128),
    /// To the soundscape.
    Soundscape(soundscape::Message<V, S>),
}

/// Messages the scene hands on, either one after another or all at once
/// in no particular order.
#[derive(Debug, Clone, PartialEq)]
pub enum FollowUp<V, S> {
    Chain(Vec<Dispatch<V, S>>),
    Batch(Vec<Dispatch<V, S>>),
}

/// Why a saved scene cannot be restored.
#[derive(Debug, Clone, Copy, PartialEq, Eq, Structural)]
pub enum SceneError {
    /// The track at this position has no audio among the saved audio.
    MissingAudio { track: usize },
}

/// The messages that tell each of the tracks, in order, that the listener
/// is now at `listener`.
pub open spec fn listener_messages<V, S>(listener: V, ids: Seq<u128>) -> Seq<Dispatch<V, S>> {
    ids.map_values(|id: u128| Dispatch::Track(track::Message::ListenerMoved(listener), id))
}

/// The messages that tell the tracks whose selection changed: first the
/// one that lost it, then the one that gained it.
pub open spec fn selection_messages<V, S>(
    deselected: Option<u128>,
    selected: Option<u128>,
) -> Seq<Dispatch<V, S>> {
    (match deselected {
        Some(id) => seq![Dispatch::Track(track::Message::Selected(false), id)],
        None => Seq::empty(),
    }) + (match selected {
        Some(id) => seq![Dispatch::Track(track::Message::Selected(true), id)],
        None => Seq::empty(),
    })
}

/// What the scene hands on after its soundscape asked for `action`, the
/// listener standing at `listener` and the scene holding the tracks `ids`
/// in this order.
pub open spec fn follow_up_messages<V, S>(
    action: soundscape::Action<V, S>,
    listener: V,
    ids: Seq<u128>,
) -> (bool, Seq<Dispatch<V, S>>) {
    match action {
        soundscape::Action::MoveTrack(id, new_position) => (
            false,
            seq![
                Dispatch::Track(track::Message::Moved { new_position, listener_position: listener }, id),
                Dispatch::Soundscape(soundscape::Message::TrackSelected(Some(id))),
            ],
        ),
        soundscape::Action::ResizeTrack(id, new_radius) => (
            false,
            seq![Dispatch::Track(track::Message::Resized { new_radius, listener_position: listener }, id)],
        ),
        soundscape::Action::MoveListener(new_position) => (true, listener_messages(new_position, ids)),
        soundscape::Action::ChangeSelection { deselected, selected } => (
            false,
            selection_messages(deselected, selected),
        ),
    }
}

/// The messages of a follow-up, and whether they are handed on all at once.
pub open spec fn follow_up_view<V, S>(f: FollowUp<V, S>) -> (bool, Seq<Dispatch<V, S>>) {
    match f {
        FollowUp::Chain(v) => (false, v@),
        FollowUp::Batch(v) => (true, v@),
    }
}

fn listener_broadcast<V: Copy, S>(listener: V, ids: &Vec<u128>) -> (res: Vec<Dispatch<V, S>>)
    ensures
        res@ == listener_messages::<V, S>(listener, ids@),
{
    let mut res: Vec<Dispatch<V, S>> = Vec::new();
    let mut i: usize = 0;
    while i < ids.len()
        invariant
            i <= ids@.len(),
            res@ == listener_messages::<V, S>(listener, ids@.take(i as int)),
        decreases ids@.len() - i,
    {
        res.push(Dispatch::Track(track::Message::ListenerMoved(listener), ids[i]));
        assert(ids@.take(i + 1) =~= ids@.take(i as int).push(ids@[i as int]));
        i = i + 1;
    }
    assert(ids@.take(ids@.len() as int) =~= ids@);
    res
}

/// What the scene hands on after its soundscape asked for `action`: a
/// moved track learns its position and the listener's and becomes the
/// selected one; a resized track learns its radius and the listener's
/// position; a moved listener is told to every track at once, in the order
/// the scene holds them; a change of selection is told first to the track
/// that lost it, then to the one that gained it.
pub fn follow_up<V: Copy, S: Copy>(
    action: soundscape::Action<V, S>,
    listener: V,
    ids: &Vec<u128>,
) -> (res: FollowUp<V, S>)
    ensures
        follow_up_view(res) == follow_up_messages(action, listener, ids@),
        action is ChangeSelection ==> {
            let d = action->ChangeSelection_deselected;
            let s = action->ChangeSelection_selected;
            &&& res is Chain
            &&& res->Chain_0@.len() == (if d is Some { 1int } else { 0int }) + (if s is Some {
                1int
            } else {
                0int
            })
            &&& d is Some ==> res->Chain_0@[0] == Dispatch::<V, S>::Track(
                track::Message::Selected(false),
                d->0,
            )
            &&& s is Some ==> res->Chain_0@.last() == Dispatch::<V, S>::Track(
                track::Message::Selected(true),
                s->0,
            )
        },
        action is MoveTrack ==> res == FollowUp::<V, S>::Chain(res->Chain_0) && res->Chain_0@ == seq![
            Dispatch::<V, S>::Track(
                track::Message::Moved {
                    new_position: action->MoveTrack_1,
                    listener_position: listener,
                },
                action->MoveTrack_0,
            ),
            Dispatch::<V, S>::Soundscape(soundscape::Message::TrackSelected(Some(action->MoveTrack_0))),
        ],
        action is ResizeTrack ==> res == FollowUp::<V, S>::Chain(res->Chain_0) && res->Chain_0@ == seq![
            Dispatch::<V, S>::Track(
                track::Message::Resized {
                    new_radius: action->ResizeTrack_1,
                    listener_position: listener,
                },
                action->ResizeTrack_0,
            ),
        ],
        action is MoveListener ==> res is Batch && res->Batch_0@.len() == ids@.len() && forall|i: int|
            0 <= i < ids@.len() ==> #[trigger] res->Batch_0@[i] == Dispatch::<V, S>::Track(
                track::Message::ListenerMoved(action->MoveListener_0),
                ids@[i],
            ),
{
    match action {
        soundscape::Action::MoveTrack(id, new_position) => {
            let mut v: Vec<Dispatch<V, S>> = Vec::new();
            v.push(Dispatch::Track(track::Message::Moved { new_position, listener_position: listener }, id));
            v.push(Dispatch::Soundscape(soundscape::Message::TrackSelected(Some(id))));
            FollowUp::Chain(v)
        },
        soundscape::Action::ResizeTrack(id, new_radius) => {
            let mut v: Vec<Dispatch<V, S>> = Vec::new();
            v.push(Dispatch::Track(track::Message::Resized { new_radius, listener_position: listener }, id));
            FollowUp::Chain(v)
        },
        soundscape::Action::MoveListener(new_position) => FollowUp::Batch(
            listener_broadcast(new_position, ids),
        ),
        soundscape::Action::ChangeSelection { deselected, selected } => {
            let mut v: Vec<Dispatch<V, S>> = Vec::new();
            if let Some(id) = deselected {
                v.push(Dispatch::Track(track::Message::Selected(false), id));
            }
            if let Some(id) = selected {
                v.push(Dispatch::Track(track::Message::Selected(true), id));
            }
            assert(v@ =~= selection_messages::<V, S>(deselected, selected));
            FollowUp::Chain(v)
        },
    }
}

/// What the scene hands on once it has been loaded: every track, all at
/// once, learns where the listener stands.
pub fn loaded<V: Copy, S>(listener: V, ids: &Vec<u128>) -> (res: FollowUp<V, S>)
    ensures
        follow_up_view(res) == (true, listener_messages::<V, S>(listener, ids@)),
{
    FollowUp::Batch(listener_broadcast(listener, ids))
}

/// What the scene tells its soundscape when a track is taken out.
pub fn removal<V, S>(id: u128) -> (res: Dispatch<V, S>)
    ensures
        res == Dispatch::<V, S>::Soundscape(soundscape::Message::TrackRemoved(id)),
{
    Dispatch::Soundscape(soundscape::Message::TrackRemoved(id))
}

/// What the scene tells its soundscape when a track is added: its id, name,
/// position and radius.
pub fn placement<V: Copy, S: Copy>(track: &TrackState<V, S>) -> (res: soundscape::Message<V, S>)
    ensures
        res == (soundscape::Message::NewTrack {
            id: track@.id,
            name: res->NewTrack_name,
            position: track@.position,
            radius: track@.radius,
        }),
        res->NewTrack_name@ == track@.name,
{
    soundscape::Message::NewTrack {
        id: track.id(),
        name: track.name().to_owned(),
        position: track.position(),
        radius: track.radius(),
    }
}

/// The last position in `audio` that holds `hash`, if any.
pub open spec fn last_with_hash(audio: Seq<[u8; 32]>, hash: [u8; 32]) -> Option<int>
    decreases audio.len(),
{
    if audio.len() == 0 {
        None
    } else if audio.last()@ == hash@ {
        Some(audio.len() - 1)
    } else {
        last_with_hash(audio.drop_last(), hash)
    }
}

/// The position `last_with_hash` finds holds the digest, and no later one
/// does; when it finds none, no position holds it.
pub proof fn lemma_last_with_hash(audio: Seq<[u8; 32]>, hash: [u8; 32])
    ensures
        match last_with_hash(audio, hash) {
            Some(j) => 0 <= j < audio.len() && audio[j]@ == hash@ && forall|k: int|
                j < k < audio.len() ==> audio[k]@ != hash@,
            None => forall|k: int| 0 <= k < audio.len() ==> audio[k]@ != hash@,
        },
    decreases audio.len(),
{
    if audio.len() > 0 && audio.last()@ != hash@ {
        let rest = audio.drop_last();
        lemma_last_with_hash(rest, hash);
        assert forall|k: int| 0 <= k < rest.len() implies rest[k] == audio[k] by {}
    }
}

fn find_last(audio: &Vec<[u8; 32]>, hash: &[u8; 32]) -> (res: Option<usize>)
    ensures
        match res {
            Some(j) => last_with_hash(audio@, *hash) == Some(j as int),
            None => last_with_hash(audio@, *hash) is None,
        },
{
    proof {
        lemma_last_with_hash(audio@, *hash);
    }
    let mut i: usize = audio.len();
    while i > 0
        invariant
            i <= audio@.len(),
            forall|k: int| i <= k < audio@.len() ==> audio@[k]@ != hash@,
        decreases i,
    {
        if same_hash(&audio[i - 1], hash) {
            proof {
                lemma_last_with_hash(audio@, *hash);
            }
            return Some(i - 1);
        }
        i = i - 1;
    }
    None
}

/// Pairs each saved track with its saved audio: for the track at position
/// `i`, whose audio has digest `track_hashes[i]`, the last position in
/// `audio_hashes` with that digest. Fails, naming the first such track,
/// when a track's audio is not among the saved audio.
pub fn resolve_audio(track_hashes: &Vec<[u8; 32]>, audio_hashes: &Vec<[u8; 32]>) -> (res: Result<
    Vec<usize>,
    SceneError,
>)
    ensures
        match res {
            Ok(idx) => {
                &&& idx@.len() == track_hashes@.len()
                &&& forall|i: int|
                    0 <= i < idx@.len() ==> last_with_hash(audio_hashes@, #[trigger] track_hashes@[i])
                        == Some(idx@[i] as int)
            },
            Err(SceneError::MissingAudio { track }) => {
                &&& track < track_hashes@.len()
                &&& last_with_hash(audio_hashes@, track_hashes@[track as int]) is None
                &&& forall|i: int|
                    0 <= i < track ==> last_with_hash(audio_hashes@, #[trigger] track_hashes@[i]) is Some
            },
        },
        res is Ok <==> forall|i: int|
            0 <= i < track_hashes@.len() ==> last_with_hash(audio_hashes@, #[trigger] track_hashes@[i]) is Some,
{
    let mut idx: Vec<usize> = Vec::new();
    let mut i: usize = 0;
    while i < track_hashes.len()
        invariant
            i <= track_hashes@.len(),
            idx@.len() == i,
            forall|k: int|
                0 <= k < i ==> last_with_hash(audio_hashes@, #[trigger] track_hashes@[k]) == Some(
                    idx@[k] as int,
                ),
        decreases track_hashes@.len() - i,
    {
        match find_last(audio_hashes, &track_hashes[i]) {
            Some(j) => idx.push(j),
            None => {
                return Err(SceneError::MissingAudio { track: i });
            },
        }
        i = i + 1;
    }
    Ok(idx)
}

/// A moved listener reaches every track: the broadcast holds one message
/// per track the scene holds, in the scene's order, each telling that
/// track the listener's new position.
pub proof fn lemma_broadcast_reaches_every_track<V, S>(listener: V, ids: Seq<u128>)
    ensures
        listener_messages::<V, S>(listener, ids).len() == ids.len(),
        forall|i: int|
            0 <= i < ids.len() ==> #[trigger] listener_messages::<V, S>(listener, ids)[i]
                == Dispatch::<V, S>::Track(track::Message::ListenerMoved(listener), ids[i]),
{
}

/// A change of selection is told to the track that lost it before the
/// track that gained it, and to no other.
pub proof fn lemma_deselect_before_select<V, S>(deselected: u128, selected: u128)
    ensures
        selection_messages::<V, S>(Some(deselected), Some(selected)) == seq![
            Dispatch::<V, S>::Track(track::Message::Selected(false), deselected),
            Dispatch::<V, S>::Track(track::Message::Selected(true), selected),
        ],
{
    assert(selection_messages::<V, S>(Some(deselected), Some(selected)) =~= seq![
        Dispatch::<V, S>::Track(track::Message::Selected(false), deselected),
        Dispatch::<V, S>::Track(track::Message::Selected(true), selected),
    ]);
}

/// Dragging a track's zone moves the track itself: the first message the
/// scene hands on after the soundscape reports the move goes to that track,
/// and once the track handled it, it sits at the new position and asks for
/// its volume to be recomputed for the listener's position.
pub proof fn lemma_zone_drag_moves_track<V, S>(
    t: track::TrackView<V, S>,
    id: u128,
    new_position: V,
    listener: V,
    ids: Seq<u128>,
)
    ensures
        ({
            let msgs = follow_up_messages(soundscape::Action::<V, S>::MoveTrack(id, new_position), listener, ids).1;
            let m = track::Message::<V, S>::Moved { new_position, listener_position: listener };
            &&& msgs[0] == Dispatch::Track(m, id)
            &&& track::next_view(t, m).position == new_position
            &&& track::effect_of(t, m) == track::Effect::<V, S>::Attenuate(listener)
        }),
{
}

/// A track taken out of the scene leaves the soundscape too: the message
/// the scene hands on removes its zone and leaves the others.
pub proof fn lemma_removal_clears_zone<V, S>(s: soundscape::SoundscapeView<V, S>, id: u128)
    ensures
        !soundscape::next_view(s, soundscape::Message::<V, S>::TrackRemoved(id)).tracks.contains_key(id),
        soundscape::next_view(s, soundscape::Message::<V, S>::TrackRemoved(id)).tracks == s.tracks.remove(id),
{
}

/// A track added to the scene appears on the soundscape: the placement
/// message gives it a zone under its id, with its name, position and
/// radius.
pub proof fn lemma_placement_adds_zone<V, S>(s: soundscape::SoundscapeView<V, S>, t: track::TrackView<V, S>, name: String)
    requires
        name@ == t.name,
    ensures
        ({
            let after = soundscape::next_view(
                s,
                soundscape::Message::NewTrack { id: t.id, name, position: t.position, radius: t.radius },
            );
            &&& after.tracks.contains_key(t.id)
            &&& after.tracks[t.id].id == t.id
            &&& after.tracks[t.id].name@ == t.name
            &&& after.tracks[t.id].position == t.position
            &&& after.tracks[t.id].radius == t.radius
        }),
{
}

/// The track that loses the selection is always told, first, whether or
/// not another track gains it; the one that gains it is told last; nobody
/// else is told.
pub proof fn lemma_deselected_track_is_always_told<V, S>(deselected: Option<u128>, selected: Option<u128>)
    ensures
        deselected is Some ==> selection_messages::<V, S>(deselected, selected)[0]
            == Dispatch::<V, S>::Track(track::Message::Selected(false), deselected->0),
        selected is Some ==> selection_messages::<V, S>(deselected, selected).last()
            == Dispatch::<V, S>::Track(track::Message::Selected(true), selected->0),
        selection_messages::<V, S>(deselected, selected).len() == (if deselected is Some {
            1int
        } else {
            0int
        }) + (if selected is Some {
            1int
        } else {
            0int
        }),
        deselected is Some ==> selection_messages::<V, S>(deselected, None) == seq![
            Dispatch::<V, S>::Track(track::Message::Selected(false), deselected->0),
        ],
        selected is Some ==> selection_messages::<V, S>(None, selected) == seq![
            Dispatch::<V, S>::Track(track::Message::Selected(true), selected->0),
        ],
{
    if deselected is Some {
        assert(selection_messages::<V, S>(deselected, None) =~= seq![
            Dispatch::<V, S>::Track(track::Message::Selected(false), deselected->0),
        ]);
    }
    if selected is Some {
        assert(selection_messages::<V, S>(None, selected) =~= seq![
            Dispatch::<V, S>::Track(track::Message::Selected(true), selected->0),
        ]);
    }
}

/// A change of selection, a move and a resize are handed on one after
/// another; a moved listener is told to all tracks at once.
pub proof fn lemma_follow_up_kinds<V, S>(
    action: soundscape::Action<V, S>,
    listener: V,
    ids: Seq<u128>,
    v: Vec<Dispatch<V, S>>,
)
    ensures
        follow_up_messages(action, listener, ids).0 <==> (action is MoveListener),
        follow_up_view(FollowUp::<V, S>::Chain(v)) == (false, v@),
        follow_up_view(FollowUp::<V, S>::Batch(v)) == (true, v@),
{
}

} // verus!
