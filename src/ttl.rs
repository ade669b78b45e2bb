use vstd::prelude::*;

verus! {

/// A value together with the instant (in milliseconds) at which it entered a store.
pub struct Stamped<T> {
    pub value: T,
    pub inserted_at: u64,
}

/// An entry stamped at `inserted_at` is still retained at `now` under `ttl`:
/// its age is at most `ttl`. An entry stamped in the future has a negative age.
pub open spec fn is_fresh(inserted_at: u64, now: u64, ttl: u64) -> bool {
    now - inserted_at <= ttl
}

/// What a sweep at `now` with `ttl` keeps of `entries`: the fresh ones, in order.
pub open spec fn fresh_entries<T>(entries: Seq<Stamped<T>>, now: u64, ttl: u64) -> Seq<Stamped<T>> {
    entries.filter(|e: Stamped<T>| is_fresh(e.inserted_at, now, ttl))
}

/// Executable form of `is_fresh`.
pub fn entry_is_fresh(inserted_at: u64, now: u64, ttl: u64) -> (r: bool)
    ensures
        r == is_fresh(inserted_at, now, ttl),
{
    inserted_at >= now || now - inserted_at <= ttl
}

/// A time-windowed store: entries in insertion order, each with its stamp.
pub struct TtlStore<T> {
    entries: Vec<Stamped<T>>,
}

impl<T> View for TtlStore<T> {
    type V = Seq<Stamped<T>>;

    closed spec fn view(&self) -> Seq<Stamped<T>> {
        self.entries@
    }
}

impl<T> TtlStore<T> {
    pub fn new() -> (s: Self)
        ensures
            s@ == Seq::<Stamped<T>>::empty(),
    {
        TtlStore { entries: Vec::new() }
    }

    /// Appends `value`, stamped with `now`.
    pub fn insert(&mut self, value: T, now: u64)
        ensures
            final(self)@ == old(self)@.push(Stamped { value, inserted_at: now }),
    {
        self.entries.push(Stamped { value, inserted_at: now });
    }

    /// Number of entries currently retained.
    pub fn len(&self) -> (n: usize)
        ensures
            n == self@.len(),
    {
        self.entries.len()
    }

    /// The retained entries, oldest insertion first.
    pub fn entries(&self) -> (r: &Vec<Stamped<T>>)
        ensures
            r@ == self@,
    {
        &self.entries
    }

    /// Hands over every entry at once and leaves the store empty.
    pub fn take_all(&mut self) -> (r: Vec<Stamped<T>>)
        ensures
            r@ == old(self)@,
            final(self)@ == Seq::<Stamped<T>>::empty(),
    {
        let mut taken: Vec<Stamped<T>> = Vec::new();
        std::mem::swap(&mut taken, &mut self.entries);
        taken
    }

    /// Evicts every entry whose age at `now` exceeds `ttl`; the others stay, in order.
    pub fn cleanup(&mut self, now: u64, ttl: u64)
        ensures
            final(self)@ == fresh_entries(old(self)@, now, ttl),
    {
        let ghost orig = self@;
        let mut rest = self.take_all();
        let ghost n = orig.len();
        let ghost mut i: int = 0;
        while rest.len() > 0
            invariant
                n == orig.len(),
                0 <= i <= n,
                rest@ == orig.subrange(i, n as int),
                self.entries@ == fresh_entries(orig.subrange(0, i), now, ttl),
            decreases rest.len(),
        {
            let e = rest.remove(0);
            proof {
                assert(orig.subrange(0, i + 1).drop_last() =~= orig.subrange(0, i));
                assert(orig.subrange(0, i + 1).last() == e);
                reveal_with_fuel(Seq::filter, 1);
            }
            if entry_is_fresh(e.inserted_at, now, ttl) {
                self.entries.push(e);
            }
            proof {
                i = i + 1;
                assert(rest@ =~= orig.subrange(i, n as int));
            }
        }
        proof {
            assert(orig.subrange(0, i) =~= orig);
        }
    }
}

/// After a sweep, every retained entry is at most `ttl` old, and every entry
/// that was at most `ttl` old is still there.
pub proof fn lemma_sweep_bound<T>(before: Seq<Stamped<T>>, now: u64, ttl: u64)
    ensures
        forall|j: int|
            0 <= j < fresh_entries(before, now, ttl).len() ==> is_fresh(
                #[trigger] fresh_entries(before, now, ttl)[j].inserted_at,
                now,
                ttl,
            ),
        forall|j: int|
            0 <= j < before.len() && is_fresh(#[trigger] before[j].inserted_at, now, ttl)
                ==> fresh_entries(before, now, ttl).contains(before[j]),
{
    let p = |e: Stamped<T>| is_fresh(e.inserted_at, now, ttl);
    assert forall|j: int| 0 <= j < fresh_entries(before, now, ttl).len() implies is_fresh(
        #[trigger] fresh_entries(before, now, ttl)[j].inserted_at,
        now,
        ttl,
    ) by {
        before.lemma_filter_pred(p, j);
    }
    assert forall|j: int|
        0 <= j < before.len() && is_fresh(#[trigger] before[j].inserted_at, now, ttl)
            implies fresh_entries(before, now, ttl).contains(before[j]) by {
        before.lemma_filter_contains(p, j);
    }
}

} // verus!
