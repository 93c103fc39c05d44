//! I/O interests and events, and the wakers that wait for them.

use slab::Slab;
use vstd::prelude::*;

verus! {

/// The slab type of the `slab` crate: a store that hands out keys.
#[verifier::external_type_specification]
#[verifier::external_body]
#[verifier::reject_recursive_types(T)]
pub struct ExSlab<T>(slab::Slab<T>);

/// What a slab holds: the keys in use, each with its value.
pub uninterp spec fn slab_contents(store: Slab<u64>) -> Map<usize, u64>;

/// `Slab::new` makes a slab that holds nothing.
#[verifier::external_body]
fn slab_new() -> (r: Slab<u64>)
    ensures
        slab_contents(r).dom() == Set::<usize>::empty(),
{
    Slab::new()
}

/// `Slab::get` finds the value of a key that is in use, and nothing for
/// any other key.
#[verifier::external_body]
fn slab_get(store: &Slab<u64>, key: usize) -> (value: Option<u64>)
    ensures
        value == (if slab_contents(*store).contains_key(key) {
            Some(slab_contents(*store)[key])
        } else {
            None
        }),
{
    store.get(key).copied()
}

/// Interest in I/O operations.
#[derive(Debug, Clone, Copy, PartialEq, Eq, Structural)]
pub enum Interest {
    Readable,
    Writable,
    Both,
}

impl Interest {
    /// Whether reading is of interest.
    pub fn is_readable(self) -> (r: bool)
        ensures
            r == (self is Readable || self is Both),
    {
        match self {
            Interest::Readable => true,
            Interest::Writable => false,
            Interest::Both => true,
        }
    }

    /// Whether writing is of interest.
    pub fn is_writable(self) -> (r: bool)
        ensures
            r == (self is Writable || self is Both),
    {
        match self {
            Interest::Readable => false,
            Interest::Writable => true,
            Interest::Both => true,
        }
    }
}

/// I/O event.
#[derive(Debug, Clone, Copy, PartialEq, Eq, Structural)]
pub struct Event {
    pub token: usize,
}

impl Event {
    /// Get the event token.
    pub fn token(&self) -> (r: usize)
        ensures
            r == self.token,
    {
        self.token
    }
}

/// I/O events, by their tokens.
pub struct Events {
    pub inner: Vec<usize>,
    /// How many events the selector is asked to have room for.
    pub capacity: usize,
}

impl Events {
    /// Room for `capacity` events, and no event yet.
    pub fn with_capacity(capacity: usize) -> (r: Self)
        ensures
            r.inner@ == Seq::<usize>::empty(),
            r.capacity == capacity,
    {
        Events { inner: Vec::with_capacity(capacity), capacity }
    }

    /// Add the event with this token.
    pub fn push(&mut self, token: usize)
        ensures
            final(self).inner@ == old(self).inner@.push(token),
            final(self).capacity == old(self).capacity,
    {
        self.inner.push(token);
    }

    /// Walk the events from the first one on.
    pub fn into_iter(&self) -> (r: EventsIter<'_>)
        ensures
            r.events == *self,
            r.index == 0,
    {
        EventsIter { events: self, index: 0 }
    }
}

/// A walk over I/O events.
pub struct EventsIter<'a> {
    pub events: &'a Events,
    pub index: usize,
}

impl<'a> EventsIter<'a> {
    /// The next event.
    pub fn next(&mut self) -> (event: Option<Event>)
        ensures
            final(self).events == old(self).events,
            old(self).index < old(self).events.inner@.len() ==> {
                &&& event == Some(Event { token: old(self).events.inner@[old(self).index as int] })
                &&& final(self).index == old(self).index + 1
            },
            old(self).index >= old(self).events.inner@.len() ==> {
                &&& event is None
                &&& final(self).index == old(self).index
            },
    {
        if self.index < self.events.inner.len() {
            let token: usize = self.events.inner[self.index];
            self.index += 1;
            Some(Event { token })
        } else {
            None
        }
    }
}

/// The wakers of the tokens that have one, in the order of the tokens.
pub open spec fn wakers_for(wakers: Map<usize, u64>, tokens: Seq<usize>) -> Seq<u64>
    decreases tokens.len(),
{
    if tokens.len() == 0 {
        Seq::empty()
    } else {
        let before = wakers_for(wakers, tokens.drop_last());
        if wakers.contains_key(tokens.last()) {
            before.push(wakers[tokens.last()])
        } else {
            before
        }
    }
}

/// I/O driver for asynchronous I/O operations: the wakers that wait for events,
/// each under the token of its event.
pub struct IoDriver {
    wakers: Slab<u64>,
}

impl IoDriver {
    /// The wakers, by their tokens.
    pub closed spec fn wakers(self) -> Map<usize, u64> {
        slab_contents(self.wakers)
    }

    /// A driver for which no waker waits.
    pub fn new() -> (r: Self)
        ensures
            r.wakers() == Map::<usize, u64>::empty(),
    {
        let wakers = slab_new();
        assert(slab_contents(wakers) =~= Map::<usize, u64>::empty());
        IoDriver { wakers }
    }

    /// A driver with the wakers of a slab.
    pub fn with_wakers(wakers: Slab<u64>) -> (r: Self)
        ensures
            r.wakers() == slab_contents(wakers),
    {
        IoDriver { wakers }
    }

    /// Dispatch the events of a poll: returns the wakers to wake.
    pub fn poll(&self, events: &Events) -> (woken: Vec<u64>)
        ensures
            woken@ == wakers_for(self.wakers(), events.inner@),
    {
        let mut woken: Vec<u64> = Vec::new();
        let mut iter = events.into_iter();
        let ghost tokens = events.inner@;
        assert(tokens.take(0) =~= Seq::empty());
        loop
            invariant_except_break
                iter.events == *events,
                tokens == events.inner@,
                iter.index <= tokens.len(),
                woken@ == wakers_for(self.wakers(), tokens.take(iter.index as int)),
            ensures
                woken@ == wakers_for(self.wakers(), tokens),
            decreases tokens.len() - iter.index,
        {
            match iter.next() {
                Some(event) => {
                    proof {
                        let upto = tokens.take(iter.index as int);
                        assert(upto.drop_last() =~= tokens.take(iter.index - 1));
                        assert(upto.last() == event.token);
                    }
                    if let Some(waker) = slab_get(&self.wakers, event.token()) {
                        woken.push(waker);
                    }
                },
                None => {
                    assert(tokens.take(iter.index as int) =~= tokens);
                    break;
                },
            }
        }
        woken
    }
}

/// Events wake one after the other: what some events wake and then others is what they
/// wake together. One event wakes the waker under its token, once, or nothing.
pub proof fn law_events_wake_in_order(
    wakers: Map<usize, u64>,
    some: Seq<usize>,
    others: Seq<usize>,
)
    ensures
        wakers_for(wakers, some + others) == wakers_for(wakers, some) + wakers_for(wakers, others),
        some.len() == 0 ==> wakers_for(wakers, some) == Seq::<u64>::empty(),
        some.len() == 1 && wakers.contains_key(some[0]) ==> wakers_for(wakers, some) == seq![
            wakers[some[0]],
        ],
        some.len() == 1 && !wakers.contains_key(some[0]) ==> wakers_for(wakers, some) == Seq::<
            u64,
        >::empty(),
    decreases others.len(),
{
    if others.len() == 0 {
        assert(some + others =~= some);
        assert(wakers_for(wakers, some) + wakers_for(wakers, others) =~= wakers_for(wakers, some));
    } else {
        assert((some + others).drop_last() =~= some + others.drop_last());
        law_events_wake_in_order(wakers, some, others.drop_last());
        assert(wakers_for(wakers, some + others) =~= wakers_for(wakers, some) + wakers_for(
            wakers,
            others,
        ));
    }
    if some.len() == 1 {
        assert(some.drop_last() =~= Seq::<usize>::empty());
        assert(wakers_for(wakers, some.drop_last()) =~= Seq::<u64>::empty());
    }
}

/// No event wakes a waker that does not wait for it: where no token has a waker,
/// nothing is woken.
pub proof fn law_events_wake_only_their_wakers(wakers: Map<usize, u64>, tokens: Seq<usize>)
    requires
        forall|i: int| 0 <= i < tokens.len() ==> !wakers.contains_key(#[trigger] tokens[i]),
    ensures
        wakers_for(wakers, tokens) == Seq::<u64>::empty(),
    decreases tokens.len(),
{
    if tokens.len() > 0 {
        assert forall|i: int| 0 <= i < tokens.drop_last().len() implies !wakers.contains_key(
            #[trigger] tokens.drop_last()[i],
        ) by {
            assert(tokens.drop_last()[i] == tokens[i]);
        }
        law_events_wake_only_their_wakers(wakers, tokens.drop_last());
        assert(!wakers.contains_key(tokens[tokens.len() - 1]));
    }
}

} // verus!
