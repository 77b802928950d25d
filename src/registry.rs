//! The registry of auxiliary processes that components spawn. One registry
//! lives for the whole server; callers share it behind a lock, so every
//! operation here is one exclusive mutation or one consistent read.
use vstd::prelude::*;

verus! {

/// An ordered list of live process handles.
pub struct ProcessRegistry<T> {
    entries: Vec<T>,
}

impl<T> View for ProcessRegistry<T> {
    type V = Seq<T>;

    closed spec fn view(&self) -> Seq<T> {
        self.entries@
    }
}

impl<T> ProcessRegistry<T> {
    /// An empty registry.
    pub fn new() -> (r: ProcessRegistry<T>)
        ensures
            r@ == Seq::<T>::empty(),
    {
        ProcessRegistry { entries: Vec::new() }
    }

    /// Records a newly spawned process after the existing entries.
    pub fn append(&mut self, entry: T)
        ensures
            final(self)@ == old(self)@.push(entry),
    {
        self.entries.push(entry);
    }

    /// The number of recorded processes.
    pub fn len(&self) -> (r: usize)
        ensures
            r == self@.len(),
    {
        self.entries.len()
    }

    /// Whether no process is recorded.
    pub fn is_empty(&self) -> (r: bool)
        ensures
            r == (self@.len() == 0),
    {
        self.entries.len() == 0
    }

    /// The entry at `index`.
    pub fn get(&self, index: usize) -> (r: &T)
        requires
            index < self@.len(),
        ensures
            *r == self@[index as int],
    {
        &self.entries[index]
    }

    /// Takes the entry at `index` out of the registry, keeping the order of
    /// the others.
    pub fn remove(&mut self, index: usize) -> (r: T)
        requires
            index < old(self)@.len(),
        ensures
            r == old(self)@[index as int],
            final(self)@ == old(self)@.remove(index as int),
    {
        self.entries.remove(index)
    }

    /// Takes every entry out, in order, leaving the registry empty.
    pub fn take_all(&mut self) -> (r: Vec<T>)
        ensures
            r@ == old(self)@,
            final(self)@ == Seq::<T>::empty(),
    {
        let mut out: Vec<T> = Vec::new();
        std::mem::swap(&mut out, &mut self.entries);
        out
    }
}

/// Two appends to one registry, made in either order, leave it holding both
/// new entries and everything it held before; the two orders differ only in
/// the position of the new entries.
pub proof fn lemma_appends_keep_both<T>(before: Seq<T>, a: T, b: T)
    ensures
        before.push(a).push(b).contains(a),
        before.push(a).push(b).contains(b),
        before.push(b).push(a).contains(a),
        before.push(b).push(a).contains(b),
        before.push(a).push(b).to_multiset() == before.push(b).push(a).to_multiset(),
        forall|x: T| before.contains(x) ==> before.push(a).push(b).contains(x),
        forall|x: T| before.contains(x) ==> before.push(b).push(a).contains(x),
{
    let ab = before.push(a).push(b);
    let ba = before.push(b).push(a);
    assert(ab[before.len() as int] == a);
    assert(ab[before.len() as int + 1] == b);
    assert(ba[before.len() as int] == b);
    assert(ba[before.len() as int + 1] == a);
    before.push(a).to_multiset_ensures();
    before.push(b).to_multiset_ensures();
    ab.to_multiset_ensures();
    ba.to_multiset_ensures();
    before.to_multiset_ensures();
    assert(ab.to_multiset() =~= ba.to_multiset());
    assert forall|x: T| before.contains(x) implies ab.contains(x) && ba.contains(x) by {
        let i = choose|i: int| 0 <= i < before.len() && before[i] == x;
        assert(ab[i] == x);
        assert(ba[i] == x);
    }
}

} // verus!
