//! A double-buffered event queue: events sent during one tick are read during
//! the next.

use std::fmt::Debug;
use vstd::prelude::*;

verus! {

/// A value that can be sent as an event.
pub trait Event: 'static + Send + Sync + Debug {

}

/// Read access to the events of the current tick.
pub trait ReadEvents<E: Event> {
    /// The events of the current tick, oldest first.
    spec fn current(&self) -> Seq<E>;

    /// All events of the current tick.
    fn events(&self) -> (r: &Vec<E>)
        ensures
            r@ == self.current(),
    ;

    /// The oldest event of the current tick, if there is one.
    fn first(&self) -> (r: Option<&E>)
        ensures
            self.current().len() == 0 ==> r.is_none(),
            self.current().len() > 0 ==> r == Some(&self.current().first()),
    ;

    /// The newest event of the current tick, if there is one.
    fn last(&self) -> (r: Option<&E>)
        ensures
            self.current().len() == 0 ==> r.is_none(),
            self.current().len() > 0 ==> r == Some(&self.current().last()),
    ;
}

/// Write access to the events of the next tick.
pub trait WriteEvents<E: Event> {
    /// The events sent since the last swap, oldest first.
    spec fn pending(&self) -> Seq<E>;

    /// The events of the current tick, oldest first.
    spec fn visible(&self) -> Seq<E>;

    /// Sends `event`: it is read during the next tick, after the events
    /// sent before it.
    fn send_event(&mut self, event: E)
        ensures
            final(self).pending() == old(self).pending().push(event),
            final(self).visible() == old(self).visible(),
    ;
}

/// The queue of the events of one type.
pub struct EventHandle<E: Event> {
    pending_events: Vec<E>,
    events: Vec<E>,
}

impl<E: Event> EventHandle<E> {
    /// The events sent since the last swap, oldest first.
    pub closed spec fn pending_events(&self) -> Seq<E> {
        self.pending_events@
    }

    /// The events of the current tick, oldest first.
    pub closed spec fn current_events(&self) -> Seq<E> {
        self.events@
    }

    /// A queue without events.
    pub fn new() -> (r: Self)
        ensures
            r.pending_events() == Seq::<E>::empty(),
            r.current_events() == Seq::<E>::empty(),
    {
        Self { pending_events: Vec::new(), events: Vec::new() }
    }

    /// Starts a tick: what was sent becomes what is read, and nothing is
    /// pending any more.
    #[inline]
    pub fn setup_events(&mut self)
        ensures
            final(self).current_events() == old(self).pending_events(),
            final(self).pending_events() == Seq::<E>::empty(),
    {
        std::mem::swap(&mut self.pending_events, &mut self.events);
        self.pending_events.clear();
    }

    /// Whether the current tick has no event, so that the work that waits for
    /// one can be skipped.
    #[inline]
    pub fn is_idle(&self) -> (r: bool)
        ensures
            r == (self.current_events().len() == 0),
    {
        self.events.len() == 0
    }
}

impl<E: Event> ReadEvents<E> for EventHandle<E> {
    open spec fn current(&self) -> Seq<E> {
        self.current_events()
    }

    #[inline]
    fn events(&self) -> (r: &Vec<E>) {
        &self.events
    }

    #[inline]
    fn first(&self) -> (r: Option<&E>) {
        if self.events.len() == 0 {
            None
        } else {
            Some(&self.events[0])
        }
    }

    #[inline]
    fn last(&self) -> (r: Option<&E>) {
        let n = self.events.len();
        if n == 0 {
            None
        } else {
            Some(&self.events[n - 1])
        }
    }
}

impl<E: Event> WriteEvents<E> for EventHandle<E> {
    open spec fn pending(&self) -> Seq<E> {
        self.pending_events()
    }

    open spec fn visible(&self) -> Seq<E> {
        self.current_events()
    }

    #[inline]
    fn send_event(&mut self, event: E) {
        self.pending_events.push(event)
    }
}

} // verus!
