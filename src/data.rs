//! Properties that remember their changes, and the handler slot of a widget.

use vstd::prelude::*;

use crate::event::Event;
use crate::widgets::WidgetState;

verus! {

/// A value cell that remembers whether it was written since the last time
/// its change was observed.
#[derive(Debug, Clone)]
pub struct Property<T> {
    value: T,
    changed: bool,
}

impl<T> Property<T> {
    /// The value held.
    pub closed spec fn value(&self) -> T {
        self.value
    }

    /// Whether `set` was called since the last `consume_event`.
    pub closed spec fn is_dirty(&self) -> bool {
        self.changed
    }

    /// The property as `set(v)` leaves it.
    pub closed spec fn written(self, v: T) -> Property<T> {
        Property { value: v, changed: true }
    }

    /// The property as `consume_event` leaves it.
    pub closed spec fn consumed(self) -> Property<T> {
        Property { value: self.value, changed: false }
    }

    /// The property after `set` was called with each of `vs` in turn.
    pub open spec fn written_all(self, vs: Seq<T>) -> Property<T>
        decreases vs.len(),
    {
        if vs.len() == 0 {
            self
        } else {
            self.written_all(vs.drop_last()).written(vs.last())
        }
    }

    /// The property after `n` calls of `consume_event`.
    pub open spec fn consumed_times(self, n: nat) -> Property<T>
        decreases n,
    {
        if n == 0 {
            self
        } else {
            self.consumed_times((n - 1) as nat).consumed()
        }
    }

    /// A write stores the value and leaves a change to report.
    pub broadcast proof fn lemma_written(self, v: T)
        ensures
            (#[trigger] self.written(v)).value() == v,
            self.written(v).is_dirty(),
    {
    }

    /// A report keeps the value and leaves no change to report.
    pub broadcast proof fn lemma_consumed(self)
        ensures
            (#[trigger] self.consumed()).value() == self.value(),
            !self.consumed().is_dirty(),
            self.consumed().consumed() == self.consumed(),
            !self.is_dirty() ==> self.consumed() == self,
    {
    }

    /// A clean property holding `val`.
    pub fn new(val: T) -> (r: Property<T>)
        ensures
            r.value() == val,
            !r.is_dirty(),
    {
        Property { value: val, changed: false }
    }

    /// Reads the value; reading is no report.
    #[inline]
    pub fn get(&self) -> (r: &T)
        ensures
            *r == self.value(),
    {
        &self.value
    }

    /// Replaces the value and marks the property dirty, whether or not the
    /// new value equals the old one.
    #[inline]
    pub fn set(&mut self, val: T)
        ensures
            *final(self) == old(self).written(val),
            final(self).value() == val,
            final(self).is_dirty(),
    {
        self.value = val;
        self.changed = true;
    }

    /// Reports whether the property was dirty and clears the flag.
    pub fn consume_event(&mut self) -> (r: bool)
        ensures
            r == old(self).is_dirty(),
            *final(self) == old(self).consumed(),
            !final(self).is_dirty(),
            final(self).value() == old(self).value(),
    {
        if self.changed {
            self.changed = false;
            return true;
        }
        false
    }
}

impl<T> core::ops::Deref for Property<T> {
    type Target = T;

    #[inline]
    fn deref(&self) -> (r: &T)
        ensures
            *r == self.value(),
    {
        self.get()
    }
}

impl<T: Default> Default for Property<T> {
    fn default() -> (r: Property<T>)
        ensures
            !r.is_dirty(),
    {
        Property::new(T::default())
    }
}

/// However many times a property is written without a report in between,
/// exactly one report finds the change: the first one. Every later report,
/// until the next write, finds none, and the value is the last one written.
pub proof fn lemma_reported_once<T>(p: Property<T>, vs: Seq<T>, n: nat)
    requires
        vs.len() > 0,
    ensures
        p.written_all(vs).is_dirty(),
        n > 0 ==> !p.written_all(vs).consumed_times(n).is_dirty(),
        p.written_all(vs).consumed_times(n).value() == vs.last(),
    decreases n,
{
    if n > 0 {
        lemma_reported_once(p, vs, (n - 1) as nat);
    }
}

/// Whatever a widget runs when an event reaches it.
///
/// The answer says whether the handler takes the event: a push event that
/// is taken travels no further. `claims` and `next` describe `handle`: its
/// answer, and what the handler becomes, depend only on the handler, the
/// owner's state and the event. A handler keeps whatever it records in its
/// own value, so the tree's contracts can tell which handlers were called.
pub trait Handler: Sized {
    /// Whether the handler takes `ev` while its owner is in state `owner`.
    spec fn claims(&self, owner: WidgetState, ev: Event) -> bool;

    /// The handler as it stands after it was given `ev`.
    spec fn next(&self, owner: WidgetState, ev: Event) -> Self;

    fn handle(&mut self, owner: &WidgetState, ev: &Event) -> (r: bool)
        ensures
            r == old(self).claims(*owner, *ev),
            *final(self) == old(self).next(*owner, *ev),
    ;
}

/// The single handler slot of a widget. An empty slot takes no event, so a
/// widget without a handler is transparent to propagation.
pub struct EventCallback<H> {
    handler: Option<H>,
}

impl<H> EventCallback<H> {
    /// The handler registered, if any.
    pub closed spec fn handler(&self) -> Option<H> {
        self.handler
    }

    pub fn new(f: H) -> (r: Self)
        ensures
            r.handler() == Some(f),
    {
        EventCallback { handler: Some(f) }
    }
}

impl<H> Default for EventCallback<H> {
    fn default() -> (r: Self)
        ensures
            r.handler() == None::<H>,
    {
        EventCallback { handler: None }
    }
}

impl<H: Handler> Handler for EventCallback<H> {
    closed spec fn claims(&self, owner: WidgetState, ev: Event) -> bool {
        match self.handler {
            Some(h) => h.claims(owner, ev),
            None => false,
        }
    }

    closed spec fn next(&self, owner: WidgetState, ev: Event) -> Self {
        match self.handler {
            Some(h) => EventCallback { handler: Some(h.next(owner, ev)) },
            None => *self,
        }
    }

    fn handle(&mut self, owner: &WidgetState, ev: &Event) -> (r: bool) {
        match &mut self.handler {
            Some(h) => h.handle(owner, ev),
            None => false,
        }
    }
}

impl<H: Handler> EventCallback<H> {
    /// An empty slot takes nothing and stays empty; a filled one answers as
    /// its handler does and holds the handler's next state.
    pub broadcast proof fn lemma_slot(self, owner: WidgetState, ev: Event)
        ensures
            #[trigger] self.claims(owner, ev) == match self.handler() {
                Some(h) => h.claims(owner, ev),
                None => false,
            },
            self.next(owner, ev).handler() == match self.handler() {
                Some(h) => Some(h.next(owner, ev)),
                None => None,
            },
            self.handler() is None ==> self.next(owner, ev) == self,
    {
    }
}

} // verus!
