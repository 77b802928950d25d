//! The decisions of the connection loop. The loop waits on two events at
//! once: a newer component handle was published, or a connection was
//! accepted. A publish replaces the held handle; an accept hands the
//! connection off, to be served with the handle held at that moment.
use vstd::prelude::*;
use crate::Scheme;

verus! {

/// One event that the connection loop observed.
pub enum LoopEvent<H, C> {
    /// A newer component handle was published.
    Updated(H),
    /// A connection was accepted.
    Accepted(C),
}

/// What the connection loop does next.
pub enum LoopAction<C> {
    /// Nothing to hand off; wait for the next event.
    KeepWaiting,
    /// Serve this connection, independently of the loop, with the handle
    /// that the loop holds now.
    Serve(C),
}

/// The handle held after observing `ev` while holding `held`.
pub open spec fn next_handle<H, C>(held: H, ev: LoopEvent<H, C>) -> H {
    match ev {
        LoopEvent::Updated(h) => h,
        LoopEvent::Accepted(_) => held,
    }
}

/// The handle held after observing `events` in order, starting from `init`.
pub open spec fn handle_after<H, C>(init: H, events: Seq<LoopEvent<H, C>>) -> H
    decreases events.len(),
{
    if events.len() == 0 {
        init
    } else {
        next_handle(handle_after(init, events.drop_last()), events.last())
    }
}

/// The state of the connection loop.
pub struct ServerLoop<H> {
    current: H,
    tls: bool,
}

impl<H> ServerLoop<H> {
    /// The handle that the next accepted connection will be served with.
    pub closed spec fn held(&self) -> H {
        self.current
    }

    /// Whether accepted connections are TLS-wrapped.
    pub closed spec fn is_tls(&self) -> bool {
        self.tls
    }

    /// A loop holding the initially published handle.
    pub fn new(initial: H, tls: bool) -> (r: ServerLoop<H>)
        ensures
            r.held() == initial,
            r.is_tls() == tls,
    {
        ServerLoop { current: initial, tls }
    }

    /// The handle held now.
    pub fn current(&self) -> (r: &H)
        ensures
            *r == self.held(),
    {
        &self.current
    }

    /// The scheme that requests on accepted connections are tagged with.
    pub fn scheme(&self) -> (r: Scheme)
        ensures
            r == (if self.is_tls() { Scheme::Https } else { Scheme::Http }),
    {
        crate::scheme_for(self.tls)
    }

    /// Observes one event. A publish replaces the held handle and hands off
    /// nothing; an accept keeps the handle and hands off the connection.
    pub fn step<C>(&mut self, ev: LoopEvent<H, C>) -> (r: LoopAction<C>)
        ensures
            final(self).held() == next_handle(old(self).held(), ev),
            final(self).is_tls() == old(self).is_tls(),
            match ev {
                LoopEvent::Updated(_) => r is KeepWaiting,
                LoopEvent::Accepted(c) => r == LoopAction::Serve(c),
            },
    {
        match ev {
            LoopEvent::Updated(h) => {
                self.current = h;
                LoopAction::KeepWaiting
            },
            LoopEvent::Accepted(c) => LoopAction::Serve(c),
        }
    }
}

/// A connection is served with the handle of the last publish observed
/// before it was accepted, or with the initial handle where none was.
/// The event at `i` is the accept; `events.take(i)` is what the loop
/// observed before it.
pub proof fn lemma_accept_sees_latest_publish<H, C>(init: H, events: Seq<LoopEvent<H, C>>, i: int)
    requires
        0 <= i < events.len(),
        events[i] is Accepted,
    ensures
        (forall|j: int| 0 <= j < i ==> !(#[trigger] events[j] is Updated)) ==> handle_after(
            init,
            events.take(i),
        ) == init,
        forall|j: int|
            0 <= j < i && #[trigger] events[j] is Updated && (forall|k: int|
                j < k < i ==> !(#[trigger] events[k] is Updated)) ==> handle_after(
                init,
                events.take(i),
            ) == events[j]->Updated_0,
{
    lemma_handle_after_no_update(init, events.take(i));
    assert forall|j: int|
        0 <= j < i && #[trigger] events[j] is Updated && (forall|k: int|
            j < k < i ==> !(#[trigger] events[k] is Updated)) implies handle_after(
        init,
        events.take(i),
    ) == events[j]->Updated_0 by {
        lemma_handle_after_last_update(init, events.take(i), j);
    }
}

proof fn lemma_handle_after_no_update<H, C>(init: H, events: Seq<LoopEvent<H, C>>)
    ensures
        (forall|j: int| 0 <= j < events.len() ==> !(#[trigger] events[j] is Updated))
            ==> handle_after(init, events) == init,
    decreases events.len(),
{
    if events.len() > 0 {
        let prefix = events.drop_last();
        if forall|j: int| 0 <= j < events.len() ==> !(#[trigger] events[j] is Updated) {
            assert forall|j: int| 0 <= j < prefix.len() implies !(#[trigger] prefix[j] is Updated) by {
                assert(prefix[j] == events[j]);
            }
            assert(!(events[events.len() - 1] is Updated));
        }
        lemma_handle_after_no_update(init, prefix);
    }
}

proof fn lemma_handle_after_last_update<H, C>(init: H, events: Seq<LoopEvent<H, C>>, j: int)
    requires
        0 <= j < events.len(),
        events[j] is Updated,
        forall|k: int| j < k < events.len() ==> !(#[trigger] events[k] is Updated),
    ensures
        handle_after(init, events) == events[j]->Updated_0,
    decreases events.len(),
{
    if j < events.len() - 1 {
        let prefix = events.drop_last();
        assert(!(events[events.len() - 1] is Updated));
        assert forall|k: int| j < k < prefix.len() implies !(#[trigger] prefix[k] is Updated) by {
            assert(prefix[k] == events[k]);
        }
        lemma_handle_after_last_update(init, prefix, j);
    }
}

} // verus!
