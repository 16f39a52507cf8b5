use vstd::prelude::*;

verus! {

/// An identifier handed out by an [`IdGenerator`].
#[derive(Debug, Clone, Copy, PartialEq, Eq, Structural, Hash)]
pub struct Id(u64);

impl Id {
    pub(crate) fn new(id: u64) -> (res: Self)
        ensures
            res.value() == id,
    {
        Id(id)
    }

    /// The number behind the identifier.
    pub closed spec fn value(self) -> u64 {
        self.0
    }

    /// The number behind the identifier.
    pub fn get(&self) -> (res: u64)
        ensures
            res == self.value(),
    {
        self.0
    }
}

impl std::ops::Deref for Id {
    type Target = u64;

    fn deref(&self) -> (res: &u64)
        ensures
            *res == self.value(),
    {
        &self.0
    }
}

/// The counter after `n` has been handed out: it wraps from `u64::MAX`
/// back to zero.
pub open spec fn successor(n: u64) -> u64 {
    if n == u64::MAX {
        0
    } else {
        (n + 1) as u64
    }
}

/// Hands out identifiers from a counter, one after another.
#[derive(Debug)]
pub struct IdGenerator(u64);

impl IdGenerator {
    /// The identifier that the next call of `next_id` hands out.
    pub closed spec fn upcoming(self) -> u64 {
        self.0
    }

    /// A generator whose first identifier is zero.
    pub fn new() -> (res: Self)
        ensures
            res.upcoming() == 0,
    {
        IdGenerator(0)
    }

    /// A generator whose first identifier is `start`.
    pub fn starting_at(start: u64) -> (res: Self)
        ensures
            res.upcoming() == start,
    {
        IdGenerator(start)
    }

    /// Hands out the current counter value and advances the counter by one,
    /// wrapping around at `u64::MAX`.
    pub fn next_id(&mut self) -> (res: Id)
        ensures
            res.value() == old(self).upcoming(),
            final(self).upcoming() == successor(old(self).upcoming()),
    {
        let id: u64 = self.0;
        self.0 = if id == u64::MAX { 0 } else { id + 1 };
        Id::new(id)
    }
}

impl Default for IdGenerator {
    fn default() -> (res: Self)
        ensures
            res.upcoming() == 0,
    {
        IdGenerator(0)
    }
}

/// Identifiers handed out one after another are all different, as long as
/// the counter does not wrap: after `k` calls starting from `start`, the
/// counter stands at `start + k`, so the `i`-th and `j`-th identifiers differ
/// whenever `i != j`.
pub proof fn lemma_ids_distinct(start: u64, i: nat, j: nat)
    requires
        start + i <= u64::MAX,
        start + j <= u64::MAX,
        i != j,
    ensures
        iterate_successor(start, i) != iterate_successor(start, j),
{
    lemma_iterate_no_wrap(start, i);
    lemma_iterate_no_wrap(start, j);
}

/// The counter value after `k` identifiers have been handed out from `start`.
pub open spec fn iterate_successor(start: u64, k: nat) -> u64
    decreases k,
{
    if k == 0 {
        start
    } else {
        successor(iterate_successor(start, (k - 1) as nat))
    }
}

/// Without wrapping, `k` steps from `start` reach `start + k`.
pub proof fn lemma_iterate_no_wrap(start: u64, k: nat)
    requires
        start + k <= u64::MAX,
    ensures
        iterate_successor(start, k) == start + k,
    decreases k,
{
    if k > 0 {
        lemma_iterate_no_wrap(start, (k - 1) as nat);
    }
}

/// The counter goes up by one after each identifier, except that it
/// wraps from the largest value back to zero.
pub proof fn lemma_successor(n: u64)
    ensures
        n < u64::MAX ==> successor(n) == n + 1,
        n == u64::MAX ==> successor(n) == 0,
        iterate_successor(n, 1) == successor(n),
{
    assert(iterate_successor(n, 0) == n);
}

} // verus!
