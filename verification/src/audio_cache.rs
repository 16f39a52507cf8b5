use vstd::prelude::*;

verus! {

/// The BLAKE3 digest of `data`.
pub uninterp spec fn blake3_digest(data: Seq<u8>) -> [u8; 32];

/// Calls `blake3::hash`, which returns the BLAKE3 digest of its input; the
/// contract names that digest and says nothing more of it.
#[verifier::external_body]
fn blake3_hash(data: &[u8]) -> (res: [u8; 32])
    ensures
        res == blake3_digest(data@),
{
    *blake3::hash(data).as_bytes()
}

/// Calls `ulid::Ulid::new`, which makes an identifier from the current
/// time and random bits, and gives its 128-bit value; nothing is promised of
/// that value.
#[verifier::external_body]
fn new_ulid() -> (res: u128) {
    ulid::Ulid::new().0
}

/// The digest by which audio is told apart: its BLAKE3 hash.
pub fn file_hash(data: &[u8]) -> (res: [u8; 32])
    ensures
        res == blake3_digest(data@),
{
    blake3_hash(data)
}

/// Whether two digests are the same.
pub fn same_hash(a: &[u8; 32], b: &[u8; 32]) -> (res: bool)
    ensures
        res == (a@ == b@),
{
    let mut i: usize = 0;
    while i < 32
        invariant
            i <= 32,
            forall|j: int| 0 <= j < i ==> a@[j] == b@[j],
        decreases 32 - i,
    {
        if a[i] != b[i] {
            return false;
        }
        i = i + 1;
    }
    assert(a@ =~= b@);
    true
}

/// The map from digest to entry that a list of entries describes; a later
/// entry for a digest wins over an earlier one.
pub open spec fn entries_map<D>(s: Seq<([u8; 32], D)>) -> Map<Seq<u8>, D>
    decreases s.len(),
{
    if s.len() == 0 {
        Map::empty()
    } else {
        entries_map(s.drop_last()).insert(s.last().0@, s.last().1)
    }
}

/// Whether `h` is among the digests `hashes`.
pub open spec fn listed(hashes: Seq<[u8; 32]>, h: Seq<u8>) -> bool {
    exists|k: int| 0 <= k < hashes.len() && hashes[k]@ == h
}

/// No digest occurs twice in the list.
pub open spec fn unique_hashes<D>(s: Seq<([u8; 32], D)>) -> bool {
    forall|i: int, j: int| 0 <= i < j < s.len() ==> s[i].0@ != s[j].0@
}

proof fn lemma_entries_map<D>(s: Seq<([u8; 32], D)>)
    requires
        unique_hashes(s),
    ensures
        forall|h: Seq<u8>|
            #[trigger] entries_map(s).contains_key(h) <==> exists|i: int|
                0 <= i < s.len() && s[i].0@ == h,
        forall|i: int| 0 <= i < s.len() ==> #[trigger] entries_map(s)[s[i].0@] == s[i].1,
    decreases s.len(),
{
    if s.len() > 0 {
        let rest = s.drop_last();
        let last = s.last();
        assert(forall|i: int| 0 <= i < rest.len() ==> #[trigger] rest[i] == s[i]);
        lemma_entries_map(rest);
        assert forall|h: Seq<u8>| #[trigger] entries_map(s).contains_key(h) implies exists|i: int|
            0 <= i < s.len() && s[i].0@ == h by {
            if h == last.0@ {
                assert(s[s.len() - 1].0@ == h);
            } else {
                assert(entries_map(rest).contains_key(h));
                let i: int = choose|i: int| 0 <= i < rest.len() && rest[i].0@ == h;
                assert(s[i].0@ == h);
            }
        }
        assert forall|h: Seq<u8>|
            (exists|i: int| 0 <= i < s.len() && s[i].0@ == h) implies #[trigger] entries_map(
            s,
        ).contains_key(h) by {
            let i: int = choose|i: int| 0 <= i < s.len() && s[i].0@ == h;
            if i < s.len() - 1 {
                assert(rest[i].0@ == h);
                assert(entries_map(rest).contains_key(h));
            }
        }
        assert forall|i: int| 0 <= i < s.len() implies #[trigger] entries_map(s)[s[i].0@] == s[i].1 by {
            if i < s.len() - 1 {
                assert(rest[i] == s[i]);
                assert(entries_map(rest)[rest[i].0@] == rest[i].1);
            }
        }
    }
}

/// The audio known to the program, by digest: each piece of audio is
/// registered once, and registering the same audio again gives back the
/// entry made the first time. `D` is the type of an entry.
pub struct AudioCache<D> {
    entries: Vec<([u8; 32], D)>,
}

impl<D> AudioCache<D> {
    #[verifier::type_invariant]
    spec fn inv(self) -> bool {
        unique_hashes(self.entries@)
    }

    /// The entries by digest.
    pub closed spec fn view(self) -> Map<Seq<u8>, D> {
        entries_map(self.entries@)
    }

    /// An empty cache.
    pub fn new() -> (res: Self)
        ensures
            res.view() == Map::<Seq<u8>, D>::empty(),
    {
        AudioCache { entries: Vec::new() }
    }

    fn position(&self, hash: &[u8; 32]) -> (res: Option<usize>)
        ensures
            match res {
                Some(i) => i < self.entries@.len() && self.entries@[i as int].0@ == hash@,
                None => forall|i: int|
                    0 <= i < self.entries@.len() ==> self.entries@[i].0@ != hash@,
            },
    {
        let mut i: usize = 0;
        while i < self.entries.len()
            invariant
                i <= self.entries@.len(),
                forall|k: int| 0 <= k < i ==> self.entries@[k].0@ != hash@,
            decreases self.entries@.len() - i,
        {
            if same_hash(&self.entries[i].0, hash) {
                return Some(i);
            }
            i = i + 1;
        }
        None
    }

    /// Whether audio with this digest is registered.
    pub fn contains(&self, hash: &[u8; 32]) -> (res: bool)
        ensures
            res == self.view().contains_key(hash@),
    {
        proof {
            use_type_invariant(self);
            lemma_entries_map(self.entries@);
        }
        self.position(hash).is_some()
    }

    /// The entry of the audio with this digest, if it is registered.
    pub fn get(&self, hash: &[u8; 32]) -> (res: Option<&D>)
        ensures
            match res {
                Some(d) => self.view().contains_key(hash@) && *d == self.view()[hash@],
                None => !self.view().contains_key(hash@),
            },
    {
        proof {
            use_type_invariant(self);
            lemma_entries_map(self.entries@);
        }
        match self.position(hash) {
            Some(i) => Some(&self.entries[i].1),
            None => None,
        }
    }
}

impl<D: Clone> AudioCache<D> {
    /// The entry for audio whose digest is `hash`: when the audio is already
    /// registered, a clone of its entry and nothing changes; else `create`
    /// is asked, with the digest and a fresh identifier, for a new entry,
    /// which is registered and a clone of it returned; when `create` fails,
    /// nothing is registered and its error is returned.
    pub fn get_or_register_hash<E, F: FnOnce([u8; 32], u128) -> Result<D, E>>(
        &mut self,
        hash: [u8; 32],
        create: F,
    ) -> (res: Result<D, E>)
        requires
            forall|id: u128| #[trigger] create.requires((hash, id)),
        ensures
            old(self).view().contains_key(hash@) ==> {
                &&& final(self).view() == old(self).view()
                &&& res is Ok
                &&& cloned(old(self).view()[hash@], res->Ok_0)
            },
            !old(self).view().contains_key(hash@) ==> exists|id: u128, made: Result<D, E>|
                {
                    &&& #[trigger] create.ensures((hash, id), made)
                    &&& match made {
                        Ok(d) => {
                            &&& final(self).view() == old(self).view().insert(hash@, d)
                            &&& res is Ok
                            &&& cloned(d, res->Ok_0)
                        },
                        Err(e) => final(self).view() == old(self).view() && res == Err::<D, E>(e),
                    }
                },
    {
        proof {
            use_type_invariant(&*self);
            lemma_entries_map(self.entries@);
        }
        match self.position(&hash) {
            Some(i) => Ok(self.entries[i].1.clone()),
            None => {
                let id: u128 = new_ulid();
                let made = create(hash, id);
                match made {
                    Ok(d) => {
                        let r = d.clone();
                        let ghost before = self.entries@;
                        let mut entries: Vec<([u8; 32], D)> = Vec::new();
                        std::mem::swap(&mut entries, &mut self.entries);
                        entries.push((hash, d));
                        proof {
                            assert(entries@.drop_last() =~= before);
                        }
                        self.entries = entries;
                        Ok(r)
                    },
                    Err(e) => Err(e),
                }
            },
        }
    }

    /// The entry for the audio `data`, found or registered by its digest as
    /// `get_or_register_hash` does.
    pub fn get_or_register<E, F: FnOnce([u8; 32], u128) -> Result<D, E>>(
        &mut self,
        data: &[u8],
        create: F,
    ) -> (res: Result<D, E>)
        requires
            forall|h: [u8; 32], id: u128| #[trigger] create.requires((h, id)),
        ensures
            ({
                let hash = blake3_digest(data@);
                &&& old(self).view().contains_key(hash@) ==> {
                    &&& final(self).view() == old(self).view()
                    &&& res is Ok
                    &&& cloned(old(self).view()[hash@], res->Ok_0)
                }
                &&& !old(self).view().contains_key(hash@) ==> exists|id: u128, made: Result<D, E>|
                    {
                        &&& #[trigger] create.ensures((hash, id), made)
                        &&& match made {
                            Ok(d) => {
                                &&& final(self).view() == old(self).view().insert(hash@, d)
                                &&& res is Ok
                                &&& cloned(d, res->Ok_0)
                            },
                            Err(e) => final(self).view() == old(self).view() && res == Err::<
                                D,
                                E,
                            >(e),
                        }
                    }
            }),
    {
        let hash = file_hash(data);
        self.get_or_register_hash(hash, create)
    }

    /// The registered entries whose digests are among `hashes`, each once,
    /// with a clone of its entry.
    pub fn subset(&self, hashes: &Vec<[u8; 32]>) -> (res: Vec<([u8; 32], D)>)
        ensures
            forall|i: int|
                0 <= i < res@.len() ==> {
                    &&& self.view().contains_key(#[trigger] res@[i].0@)
                    &&& listed(hashes@, res@[i].0@)
                    &&& cloned(self.view()[res@[i].0@], res@[i].1)
                },
            forall|i: int, j: int| 0 <= i < j < res@.len() ==> res@[i].0@ != res@[j].0@,
            forall|h: Seq<u8>|
                #![trigger self.view().contains_key(h)]
                self.view().contains_key(h) && listed(hashes@, h) ==> exists|i: int|
                    0 <= i < res@.len() && res@[i].0@ == h,
    {
        proof {
            use_type_invariant(self);
            lemma_entries_map(self.entries@);
        }
        let ghost es = self.entries@;
        let mut res: Vec<([u8; 32], D)> = Vec::new();
        let ghost mut from: Seq<int> = Seq::empty();
        let mut i: usize = 0;
        while i < self.entries.len()
            invariant
                es == self.entries@,
                unique_hashes(es),
                i <= es.len(),
                from.len() == res@.len(),
                forall|m: int|
                    0 <= m < res@.len() ==> {
                        &&& 0 <= #[trigger] from[m] < i
                        &&& es[from[m]].0@ == res@[m].0@
                        &&& listed(hashes@, res@[m].0@)
                        &&& cloned(es[from[m]].1, res@[m].1)
                    },
                forall|m: int, n: int| 0 <= m < n < res@.len() ==> from[m] < from[n],
                forall|e: int|
                    0 <= e < i && listed(hashes@, #[trigger] es[e].0@) ==> exists|m: int|
                        0 <= m < res@.len() && from[m] == e,
            decreases es.len() - i,
        {
            let mut wanted = false;
            let mut k: usize = 0;
            while k < hashes.len()
                invariant
                    es == self.entries@,
                    i < es.len(),
                    k <= hashes@.len(),
                    wanted ==> listed(hashes@, es[i as int].0@),
                    !wanted ==> forall|q: int| 0 <= q < k ==> hashes@[q]@ != es[i as int].0@,
                decreases hashes@.len() - k,
            {
                if same_hash(&hashes[k], &self.entries[i].0) {
                    wanted = true;
                }
                k = k + 1;
            }
            let ghost old_from = from;
            let ghost old_res = res@;
            if wanted {
                let d = self.entries[i].1.clone();
                res.push((self.entries[i].0, d));
                proof {
                    from = from.push(i as int);
                    assert(from[from.len() - 1] == i);
                }
            }
            proof {
                assert(forall|m: int| 0 <= m < old_from.len() ==> #[trigger] from[m] == old_from[m]);
                assert(forall|m: int| 0 <= m < old_res.len() ==> #[trigger] res@[m] == old_res[m]);
                assert forall|e: int|
                    0 <= e < i + 1 && listed(hashes@, #[trigger] es[e].0@) implies exists|m: int|
                    0 <= m < res@.len() && from[m] == e by {
                    if e == i {
                        assert(wanted);
                        assert(from[from.len() - 1] == e);
                    } else {
                        let m: int = choose|m: int| 0 <= m < old_res.len() && old_from[m] == e;
                        assert(from[m] == e);
                    }
                }
            }
            i = i + 1;
        }
        proof {
            assert forall|a: int, b: int| 0 <= a < b < res@.len() implies res@[a].0@ != res@[b].0@ by {
                assert(from[a] < from[b]);
            }
            assert forall|m: int| 0 <= m < res@.len() implies {
                &&& self.view().contains_key(#[trigger] res@[m].0@)
                &&& listed(hashes@, res@[m].0@)
                &&& cloned(self.view()[res@[m].0@], res@[m].1)
            } by {
                let e: int = from[m];
                assert(es[e].0@ == res@[m].0@);
                assert(entries_map(es)[es[e].0@] == es[e].1);
                assert(self.view().contains_key(es[e].0@));
            }
            assert forall|h: Seq<u8>|
                #![trigger self.view().contains_key(h)]
                self.view().contains_key(h) && listed(hashes@, h) implies exists|m: int|
                    0 <= m < res@.len() && res@[m].0@ == h by {
                let e: int = choose|e: int| 0 <= e < es.len() && es[e].0@ == h;
                let m: int = choose|m: int| 0 <= m < res@.len() && from[m] == e;
                assert(res@[m].0@ == h);
            }
        }
        res
    }
}

/// Registering is once only: after audio was registered (its entry `d`
/// inserted under its digest), the cache holds that digest with that entry,
/// so registering the same audio again finds it and changes nothing.
pub proof fn lemma_registered_audio_is_found<D>(before: Map<Seq<u8>, D>, data: Seq<u8>, d: D)
    ensures
        ({
            let after = before.insert(blake3_digest(data)@, d);
            &&& after.contains_key(blake3_digest(data)@)
            &&& after[blake3_digest(data)@] == d
        }),
{
}

/// Registering an entry under a digest the list did not hold makes the
/// cache hold that digest with that entry, and keeps every other digest
/// with the entry it had; an empty list holds nothing.
pub proof fn lemma_registration_adds_entry<D>(s: Seq<([u8; 32], D)>, h: [u8; 32], d: D, other: Seq<u8>)
    requires
        unique_hashes(s),
        other != h@,
    ensures
        entries_map(s.push((h, d))).contains_key(h@),
        entries_map(s.push((h, d)))[h@] == d,
        entries_map(s.push((h, d))).contains_key(other) == entries_map(s).contains_key(other),
        entries_map(s).contains_key(other) ==> entries_map(s.push((h, d)))[other] == entries_map(
            s,
        )[other],
        entries_map(Seq::<([u8; 32], D)>::empty()) == Map::<Seq<u8>, D>::empty(),
{
    assert(s.push((h, d)).drop_last() =~= s);
}

} // verus!
