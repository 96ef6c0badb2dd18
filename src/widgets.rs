//! Widgets, the window at the top of a tree, and the two traversals that
//! deliver events: push (children first, stops when taken) and pull (self
//! first, reaches every widget).

use vstd::prelude::*;

use crate::data::{EventCallback, Handler, Property};
use crate::event::{cast, routed, Event, ExtEvent};
use crate::traits::{
    CanDraw, Containable, DrawContext, HasEvents, HasLabel, HasPosition, HasSize, HasVisibility,
    Reaction, TopLevel,
};

verus! {

broadcast use {Property::lemma_written, Property::lemma_consumed};

/// What a widget shows and where; this is what its handler is shown. Only
/// the widget that holds it can change it: handlers get a shared reference.
pub struct WidgetState {
    pub label: Property<String>,
    pub size: Property<(u32, u32)>,
    pub position: Property<(i32, i32)>,
    pub visible: bool,
}

impl WidgetState {
    /// No property changed since its change was last reported.
    pub open spec fn is_clean(&self) -> bool {
        &&& !self.label.is_dirty()
        &&& !self.size.is_dirty()
        &&& !self.position.is_dirty()
    }

    /// A state with the given label, zero size and position, and no change
    /// to report.
    pub fn new(label: &str, visible: bool) -> (r: WidgetState)
        ensures
            r.label.value()@ == label@,
            r.size.value() == (0u32, 0u32),
            r.position.value() == (0i32, 0i32),
            r.visible == visible,
            r.is_clean(),
    {
        WidgetState {
            label: Property::new(label.to_owned()),
            size: Property::new((0, 0)),
            position: Property::new((0, 0)),
            visible,
        }
    }
}

impl HasLabel for WidgetState {
    fn get_label(&self) -> (r: &str)
        ensures
            r@ == self.label.value()@,
    {
        self.label.get().as_str()
    }

    fn set_label(&mut self, label: &str)
        ensures
            final(self).label.value()@ == label@,
            final(self).label.is_dirty(),
            final(self).size == old(self).size,
            final(self).position == old(self).position,
            final(self).visible == old(self).visible,
    {
        self.label.set(label.to_owned());
    }
}

impl HasSize for WidgetState {
    fn get_size(&self) -> (r: (u32, u32))
        ensures
            r == self.size.value(),
    {
        *self.size.get()
    }

    fn set_size(&mut self, width: u32, height: u32)
        ensures
            *final(self) == (WidgetState {
                size: old(self).size.written((width, height)),
                ..*old(self)
            }),
    {
        self.size.set((width, height));
    }
}

impl HasPosition for WidgetState {
    fn get_position(&self) -> (r: (i32, i32))
        ensures
            r == self.position.value(),
    {
        *self.position.get()
    }

    fn set_position(&mut self, x: i32, y: i32)
        ensures
            *final(self) == (WidgetState {
                position: old(self).position.written((x, y)),
                ..*old(self)
            }),
    {
        self.position.set((x, y));
    }
}

impl HasVisibility for WidgetState {
    closed spec fn visible(&self) -> bool {
        self.visible
    }

    fn is_visible(&self) -> (r: bool) {
        self.visible
    }

    fn set_visible(&mut self, vis: bool)
        ensures
            *final(self) == (WidgetState { visible: vis, ..*old(self) }),
    {
        self.visible = vis;
    }
}

/// A node of the widget tree: its state, its handler and at most one child,
/// which it owns.
pub struct Widget<H> {
    state: WidgetState,
    callback: EventCallback<H>,
    child: Option<Box<Widget<H>>>,
}

/// Relies on ref_slice::opt_slice: the slice holds the option's value, or
/// nothing.
pub assume_specification<A>[ ref_slice::opt_slice::<A> ](opt: &Option<A>) -> (r: &[A])
    ensures
        r@ == match *opt {
            Some(a) => seq![a],
            None => Seq::<A>::empty(),
        },
;

/// Relies on ref_slice::mut_opt_slice: the slice holds the option's value,
/// or nothing, and writes through it land in the option.
pub assume_specification<A>[ ref_slice::mut_opt_slice::<A> ](opt: &mut Option<A>) -> (r: &mut [A])
    ensures
        r@ == match *old(opt) {
            Some(a) => seq![a],
            None => Seq::<A>::empty(),
        },
        *final(opt) == match *old(opt) {
            Some(_) => Some(final(r)@[0]),
            None => None::<A>,
        },
        final(r)@.len() == r@.len(),
;

impl<H> Widget<H> {
    pub closed spec fn state(self) -> WidgetState {
        self.state
    }

    pub closed spec fn callback(self) -> EventCallback<H> {
        self.callback
    }

    pub closed spec fn child(self) -> Option<Box<Widget<H>>> {
        self.child
    }

    /// The widget with its state replaced.
    pub closed spec fn with_state(self, state: WidgetState) -> Widget<H> {
        Widget { state, ..self }
    }

    /// The widget with its handler slot replaced.
    pub closed spec fn with_callback(self, callback: EventCallback<H>) -> Widget<H> {
        Widget { callback, ..self }
    }

    /// The widget with its child replaced.
    pub closed spec fn with_child(self, child: Option<Box<Widget<H>>>) -> Widget<H> {
        Widget { child, ..self }
    }

    /// The children, in order: none or one.
    pub open spec fn kids(self) -> Seq<Box<Widget<H>>> {
        match self.child() {
            Some(c) => seq![c],
            None => Seq::empty(),
        }
    }

    /// Replacing one part of a widget keeps the others.
    pub broadcast proof fn lemma_with_state(self, state: WidgetState)
        ensures
            #[trigger] self.with_state(state).state() == state,
            self.with_state(state).callback() == self.callback(),
            self.with_state(state).child() == self.child(),
            self.with_state(self.state()) == self,
    {
    }

    /// Replacing one part of a widget keeps the others.
    pub broadcast proof fn lemma_with_callback(self, cb: EventCallback<H>)
        ensures
            #[trigger] self.with_callback(cb).callback() == cb,
            self.with_callback(cb).state() == self.state(),
            self.with_callback(cb).child() == self.child(),
            self.with_callback(self.callback()) == self,
    {
    }

    /// Replacing one part of a widget keeps the others.
    pub broadcast proof fn lemma_with_child(self, child: Option<Box<Widget<H>>>)
        ensures
            #[trigger] self.with_child(child).child() == child,
            self.with_child(child).state() == self.state(),
            self.with_child(child).callback() == self.callback(),
            self.with_child(self.child()) == self,
    {
    }

    /// A visible widget with the given label, no handler and no child.
    pub fn new(label: &str) -> (r: Widget<H>)
        ensures
            r.state().label.value()@ == label@,
            r.state().size.value() == (0u32, 0u32),
            r.state().position.value() == (0i32, 0i32),
            r.state().visible,
            r.state().is_clean(),
            r.callback().handler() is None,
            r.child() is None,
    {
        Widget { state: WidgetState::new(label, true), callback: EventCallback::default(), child: None }
    }

    /// Makes `child` the widget's only child, dropping any earlier one.
    pub fn add(&mut self, child: Widget<H>)
        ensures
            *final(self) == old(self).with_child(Some(Box::new(child))),
    {
        self.child = Some(Box::new(child));
    }

    /// The children as a slice: empty, or the one child.
    pub fn children(&self) -> (r: &[Box<Widget<H>>])
        ensures
            r@ == self.kids(),
    {
        ref_slice::opt_slice(&self.child)
    }

    /// The children as a mutable slice: empty, or the one child.
    pub fn children_mut(&mut self) -> (r: &mut [Box<Widget<H>>])
        ensures
            r@ == old(self).kids(),
            final(r)@.len() == r@.len(),
            *final(self) == old(self).with_child(
                match old(self).child() {
                    Some(_) => Some(final(r)@[0]),
                    None => None,
                },
            ),
    {
        ref_slice::mut_opt_slice(&mut self.child)
    }

    /// The state that the widget's handler is shown.
    pub fn state_ref(&self) -> (r: &WidgetState)
        ensures
            *r == self.state(),
    {
        &self.state
    }
}

/// What the `with_*` updates of a widget change and keep.
pub broadcast group group_widget_with {
    Widget::lemma_with_state,
    Widget::lemma_with_callback,
    Widget::lemma_with_child,
}

impl<H: Handler> Widget<H> {
    /// What `push_event` returns for `ev`, and the tree it leaves: the child
    /// is offered the event first; only if it does not take it is the
    /// widget's own handler asked.
    pub open spec fn pushed(self, ev: Event) -> (bool, Widget<H>)
        decreases self,
    {
        let (taken, child) = match self.child() {
            Some(c) => {
                let (t, c2) = c.pushed(ev);
                (t, Some(Box::new(c2)))
            },
            None => (false, None),
        };
        if taken {
            (true, self.with_child(child))
        } else {
            (
                self.callback().claims(self.state(), ev),
                self.with_callback(self.callback().next(self.state(), ev)).with_child(child),
            )
        }
    }

    /// The state and handler after the widget's own changed properties were
    /// reported, label first, then size, then position.
    pub open spec fn reported(state: WidgetState, cb: EventCallback<H>) -> (WidgetState, EventCallback<H>) {
        let s1 = WidgetState { label: state.label.consumed(), ..state };
        let c1 = if state.label.is_dirty() {
            cb.next(s1, Event::LabelChanged(state.label.value()))
        } else {
            cb
        };
        let s2 = WidgetState { size: s1.size.consumed(), ..s1 };
        let c2 = if s1.size.is_dirty() {
            c1.next(s2, Event::Resized(s1.size.value().0, s1.size.value().1))
        } else {
            c1
        };
        let s3 = WidgetState { position: s2.position.consumed(), ..s2 };
        let c3 = if s2.position.is_dirty() {
            c2.next(s3, Event::Moved(s2.position.value().0, s2.position.value().1))
        } else {
            c2
        };
        (s3, c3)
    }

    /// The tree that `pull_events` leaves: this widget reports its changes,
    /// then every descendant does.
    pub open spec fn pulled(self) -> Widget<H>
        decreases self,
    {
        let (state, callback) = Self::reported(self.state(), self.callback());
        let child = match self.child() {
            Some(c) => Some(Box::new(c.pulled())),
            None => None,
        };
        self.with_state(state).with_callback(callback).with_child(child)
    }

    fn report_changes(&mut self)
        ensures
            (final(self).state, final(self).callback) == Self::reported(old(self).state, old(self).callback),
            final(self).child == old(self).child,
    {
        if self.state.label.consume_event() {
            let ev = Event::LabelChanged(self.state.label.get().clone());
            let _ = self.callback.handle(&self.state, &ev);
        }
        if self.state.size.consume_event() {
            let (w, h) = *self.state.size.get();
            let _ = self.callback.handle(&self.state, &Event::Resized(w, h));
        }
        if self.state.position.consume_event() {
            let (x, y) = *self.state.position.get();
            let _ = self.callback.handle(&self.state, &Event::Moved(x, y));
        }
    }
}

impl<H: Handler> HasEvents for Widget<H> {
    type Handler = H;

    fn push_event(&mut self, ev: &Event) -> (r: bool)
        ensures
            (r, *final(self)) == old(self).pushed(*ev),
        decreases *old(self),
    {
        let kids = ref_slice::mut_opt_slice(&mut self.child);
        let ghost kids0 = kids@;
        let mut i: usize = 0;
        let mut taken = false;
        while i < kids.len() && !taken
            invariant
                kids0 == old(self).kids(),
                kids@.len() == kids0.len(),
                0 <= i <= kids0.len(),
                forall|j: int| i <= j < kids0.len() ==> kids@[j] == kids0[j],
                i == 0 ==> !taken,
                i > 0 ==> (taken, *kids@[0]) == kids0[0].pushed(*ev),
            decreases kids.len() - i,
        {
            assert(old(self).child is Some);
            assert(kids0[i as int] == old(self).child.unwrap());
            taken = kids[i].push_event(ev);
            i = i + 1;
        }
        if taken {
            return true;
        }
        self.callback.handle(&self.state, ev)
    }

    fn pull_events(&mut self)
        ensures
            *final(self) == old(self).pulled(),
        decreases *old(self),
    {
        self.report_changes();
        let kids = ref_slice::mut_opt_slice(&mut self.child);
        let ghost kids0 = kids@;
        let mut i: usize = 0;
        while i < kids.len()
            invariant
                kids0 == old(self).kids(),
                kids@.len() == kids0.len(),
                0 <= i <= kids0.len(),
                forall|j: int| i <= j < kids0.len() ==> kids@[j] == kids0[j],
                i > 0 ==> *kids@[0] == kids0[0].pulled(),
            decreases kids.len() - i,
        {
            assert(old(self).child is Some);
            assert(kids0[i as int] == old(self).child.unwrap());
            kids[i].pull_events();
            i = i + 1;
        }
    }

    fn on_event(&mut self, handler: H)
        ensures
            final(self).callback().handler() == Some(handler),
            *final(self) == old(self).with_callback(final(self).callback()),
    {
        self.callback = EventCallback::new(handler);
    }
}

impl<H> HasLabel for Widget<H> {
    fn get_label(&self) -> (r: &str)
        ensures
            r@ == self.state().label.value()@,
    {
        self.state.get_label()
    }

    fn set_label(&mut self, label: &str)
        ensures
            final(self).state().label.value()@ == label@,
            final(self).state().label.is_dirty(),
            *final(self) == old(self).with_state(
                WidgetState { label: final(self).state().label, ..old(self).state() },
            ),
    {
        self.state.set_label(label);
    }
}

impl<H> HasSize for Widget<H> {
    fn get_size(&self) -> (r: (u32, u32))
        ensures
            r == self.state().size.value(),
    {
        self.state.get_size()
    }

    fn set_size(&mut self, width: u32, height: u32)
        ensures
            *final(self) == old(self).with_state(
                WidgetState { size: old(self).state().size.written((width, height)), ..old(self).state() },
            ),
    {
        self.state.set_size(width, height);
    }
}

impl<H> HasPosition for Widget<H> {
    fn get_position(&self) -> (r: (i32, i32))
        ensures
            r == self.state().position.value(),
    {
        self.state.get_position()
    }

    fn set_position(&mut self, x: i32, y: i32)
        ensures
            *final(self) == old(self).with_state(
                WidgetState { position: old(self).state().position.written((x, y)), ..old(self).state() },
            ),
    {
        self.state.set_position(x, y);
    }
}

impl<H> HasVisibility for Widget<H> {
    closed spec fn visible(&self) -> bool {
        self.state.visible
    }

    fn is_visible(&self) -> (r: bool)
        ensures
            r == self.state().visible,
    {
        self.state.visible
    }

    fn set_visible(&mut self, vis: bool)
        ensures
            *final(self) == old(self).with_state(WidgetState { visible: vis, ..old(self).state() }),
    {
        self.state.visible = vis;
    }
}

impl<H> Widget<H> {
    /// The labels that drawing the widget puts on the surface, in order:
    /// its own, then its descendants'.
    pub open spec fn draw_list(self) -> Seq<Seq<char>>
        decreases self,
    {
        let below = match self.child() {
            Some(c) => c.draw_list(),
            None => Seq::empty(),
        };
        seq![self.state().label.value()@] + below
    }
}

impl<H> CanDraw for Widget<H> {
    fn draw<D: DrawContext>(&self, ctx: &mut D)
        ensures
            final(ctx).drawn() == old(ctx).drawn() + self.draw_list(),
        decreases self,
    {
        ctx.draw_text(self.state.label.get().as_str());
        let kids = self.children();
        let mut i: usize = 0;
        while i < kids.len()
            invariant
                kids@ == self.kids(),
                0 <= i <= kids@.len(),
                ctx.drawn() == old(ctx).drawn() + seq![self.state.label.value()@] + (
                    if i == 0 { Seq::empty() } else { self.child.unwrap().draw_list() }
                ),
            decreases kids@.len() - i,
        {
            kids[i].draw(ctx);
            i = i + 1;
        }
    }
}

impl<H: Handler> Containable for Widget<H> {
}

impl WidgetState {
    /// The state with every change reported.
    pub open spec fn cleaned(self) -> WidgetState {
        WidgetState {
            label: self.label.consumed(),
            size: self.size.consumed(),
            position: self.position.consumed(),
            ..self
        }
    }

    /// Exactly one property changed since its change was last reported.
    pub open spec fn has_one_change(self) -> bool {
        let n = (if self.label.is_dirty() { 1int } else { 0int }) + (if self.size.is_dirty() {
            1int
        } else {
            0int
        }) + (if self.position.is_dirty() { 1int } else { 0int });
        n == 1
    }

    /// The pull event that reports the first changed property.
    pub open spec fn first_change(self) -> Event {
        if self.label.is_dirty() {
            Event::LabelChanged(self.label.value())
        } else if self.size.is_dirty() {
            Event::Resized(self.size.value().0, self.size.value().1)
        } else {
            Event::Moved(self.position.value().0, self.position.value().1)
        }
    }
}

impl<H> Widget<H> {
    /// No property of the widget or of any descendant has a change to report.
    pub open spec fn all_clean(self) -> bool
        decreases self,
    {
        &&& self.state().is_clean()
        &&& match self.child() {
            Some(c) => c.all_clean(),
            None => true,
        }
    }
}

impl<H> Widget<H> {
    /// The states of the widget and its descendants, top down.
    pub open spec fn states(self) -> Seq<WidgetState>
        decreases self,
    {
        let below = match self.child() {
            Some(c) => c.states(),
            None => Seq::empty(),
        };
        seq![self.state()] + below
    }
}

impl<H: Handler> Widget<H> {
    /// Propagating a push event changes no widget's state: only handlers
    /// are affected.
    pub proof fn lemma_push_keeps_states(self, ev: Event)
        ensures
            self.pushed(ev).1.states() == self.states(),
        decreases self,
    {
        if let Some(c) = self.child() {
            c.lemma_push_keeps_states(ev);
        }
    }

    /// A pull keeps every value and clears every change in the tree.
    pub proof fn lemma_pull_cleans_states(self)
        ensures
            self.pulled().states() == self.states().map_values(|s: WidgetState| s.cleaned()),
        decreases self,
    {
        if let Some(c) = self.child() {
            c.lemma_pull_cleans_states();
        }
        assert(self.pulled().states() =~= self.states().map_values(|s: WidgetState| s.cleaned()));
    }

    /// A widget with exactly one change reports it to its handler once, with
    /// the current value, and is left with none.
    pub proof fn lemma_one_change_reported(state: WidgetState, cb: EventCallback<H>)
        requires
            state.has_one_change(),
        ensures
            Self::reported(state, cb) == (state.cleaned(), cb.next(state.cleaned(), state.first_change())),
    {
    }

    /// A widget with no change to report leaves its handler alone.
    pub proof fn lemma_no_change_no_report(state: WidgetState, cb: EventCallback<H>)
        requires
            state.is_clean(),
        ensures
            Self::reported(state, cb) == (state, cb),
    {
    }

    /// After a pull, nothing in the tree has a change to report.
    pub proof fn lemma_pull_leaves_clean(self)
        ensures
            self.pulled().all_clean(),
        decreases self,
    {
        if let Some(c) = self.child {
            c.lemma_pull_leaves_clean();
        }
    }

    /// Pulling a tree that has nothing to report calls no handler and
    /// changes nothing.
    pub proof fn lemma_pull_clean_tree(self)
        requires
            self.all_clean(),
        ensures
            self.pulled() == self,
        decreases self,
    {
        Self::lemma_no_change_no_report(self.state, self.callback);
        if let Some(c) = self.child {
            c.lemma_pull_clean_tree();
        }
    }

    /// A second pull, with no write in between, calls no handler: it leaves
    /// the tree as the first one did.
    pub proof fn lemma_pull_idempotent(self)
        ensures
            self.pulled().pulled() == self.pulled(),
    {
        self.lemma_pull_leaves_clean();
        self.pulled().lemma_pull_clean_tree();
    }

    /// In a chain root, a, b where b takes a push event, b's handler is asked
    /// once, no other handler is asked, and the event counts as taken.
    pub proof fn lemma_push_stops_at_taker(root: Widget<H>, a: Widget<H>, b: Widget<H>, ev: Event)
        requires
            root.child() == Some(Box::new(a)),
            a.child() == Some(Box::new(b)),
            b.child() is None,
            b.callback().claims(b.state(), ev),
        ensures
            root.pushed(ev) == (
                true,
                root.with_child(
                    Some(
                        Box::new(
                            a.with_child(
                                Some(Box::new(b.with_callback(b.callback().next(b.state(), ev)))),
                            ),
                        ),
                    ),
                ),
            ),
    {
        let b2 = b.with_callback(b.callback().next(b.state(), ev));
        assert(b.pushed(ev) == (true, b2));
        assert(a.pushed(ev) == (true, a.with_child(Some(Box::new(b2)))));
    }

    /// In a chain root, a, b where no handler takes a push event, every
    /// handler is asked once (b's, then a's, then the root's) and the event
    /// counts as not taken.
    pub proof fn lemma_push_falls_through(root: Widget<H>, a: Widget<H>, b: Widget<H>, ev: Event)
        requires
            root.child() == Some(Box::new(a)),
            a.child() == Some(Box::new(b)),
            b.child() is None,
            !b.callback().claims(b.state(), ev),
            !a.callback().claims(a.state(), ev),
            !root.callback().claims(root.state(), ev),
        ensures
            root.pushed(ev) == (
                false,
                root.with_callback(root.callback().next(root.state(), ev)).with_child(
                    Some(
                        Box::new(
                            a.with_callback(a.callback().next(a.state(), ev)).with_child(
                                Some(Box::new(b.with_callback(b.callback().next(b.state(), ev)))),
                            ),
                        ),
                    ),
                ),
            ),
    {
        let b2 = b.with_callback(b.callback().next(b.state(), ev));
        assert(b.pushed(ev) == (false, b2));
        assert(a.pushed(ev) == (
            false,
            a.with_callback(a.callback().next(a.state(), ev)).with_child(Some(Box::new(b2))),
        ));
    }

    /// In a chain root, a, b where each widget has exactly one change, a pull
    /// reports each change once to its owner's handler, with the current
    /// value, and leaves nothing to report.
    pub proof fn lemma_pull_reaches_all(root: Widget<H>, a: Widget<H>, b: Widget<H>)
        requires
            root.child() == Some(Box::new(a)),
            a.child() == Some(Box::new(b)),
            b.child() is None,
            root.state().has_one_change(),
            a.state().has_one_change(),
            b.state().has_one_change(),
        ensures
            root.pulled() == root.with_state(root.state().cleaned()).with_callback(
                root.callback().next(root.state().cleaned(), root.state().first_change()),
            ).with_child(
                Some(
                    Box::new(
                        a.with_state(a.state().cleaned()).with_callback(
                            a.callback().next(a.state().cleaned(), a.state().first_change()),
                        ).with_child(
                            Some(
                                Box::new(
                                    b.with_state(b.state().cleaned()).with_callback(
                                        b.callback().next(b.state().cleaned(), b.state().first_change()),
                                    ),
                                ),
                            ),
                        ),
                    ),
                ),
            ),
            root.pulled().all_clean(),
    {
        Self::lemma_one_change_reported(root.state, root.callback);
        Self::lemma_one_change_reported(a.state, a.callback);
        Self::lemma_one_change_reported(b.state, b.callback);
        root.lemma_pull_leaves_clean();
        let b2 = b.with_state(b.state().cleaned()).with_callback(
            b.callback().next(b.state().cleaned(), b.state().first_change()),
        );
        assert(b.pulled() == b2);
        assert(a.pulled() == a.with_state(a.state().cleaned()).with_callback(
            a.callback().next(a.state().cleaned(), a.state().first_change()),
        ).with_child(Some(Box::new(b2))));
    }
}

impl<H: Handler> Widget<H> {
    /// The widget after `ev` was given to its own handler alone.
    pub open spec fn notified(self, ev: Event) -> Widget<H> {
        self.with_callback(self.callback().next(self.state(), ev))
    }

    /// Gives `ev` to the widget's own handler, bypassing its children.
    fn notify(&mut self, ev: &Event) -> (r: bool)
        ensures
            r == old(self).callback().claims(old(self).state(), *ev),
            *final(self) == old(self).notified(*ev),
    {
        self.callback.handle(&self.state, ev)
    }
}

/// The top of a widget tree, fed by the window system. Its label is the
/// window's title.
pub struct Window<H> {
    root: Widget<H>,
}

impl<H> Window<H> {
    pub closed spec fn root(self) -> Widget<H> {
        self.root
    }

    /// The window with the tree below it replaced.
    pub closed spec fn with_root(self, root: Widget<H>) -> Window<H> {
        Window { root }
    }

    /// Replacing the tree of a window is all that changes it.
    pub broadcast proof fn lemma_with_root(self, root: Widget<H>)
        ensures
            #[trigger] self.with_root(root).root() == root,
            self.with_root(self.root()) == self,
    {
    }

    /// A hidden window titled "Window", with no handler and no child.
    pub fn new() -> (r: Window<H>)
        ensures
            r.root().state().label.value()@ == "Window"@,
            r.root().state().size.value() == (0u32, 0u32),
            r.root().state().position.value() == (0i32, 0i32),
            !r.root().state().visible,
            r.root().state().is_clean(),
            r.root().callback().handler() is None,
            r.root().child() is None,
    {
        let mut root = Widget::new("Window");
        root.state.visible = false;
        Window { root }
    }

    pub fn set_title(&mut self, text: &str)
        ensures
            final(self).root().state().label.value()@ == text@,
            final(self).root().state().label.is_dirty(),
            final(self).root() == old(self).root().with_state(
                WidgetState { label: final(self).root().state().label, ..old(self).root().state() },
            ),
    {
        self.root.set_label(text);
    }

    /// Makes `obj` the window's only child, dropping any earlier one.
    pub fn add(&mut self, obj: Widget<H>)
        ensures
            final(self).root() == old(self).root().with_child(Some(Box::new(obj))),
    {
        self.root.add(obj);
    }

    /// The window's children: empty, or the one child.
    pub fn children(&self) -> (r: &[Box<Widget<H>>])
        ensures
            r@ == self.root().kids(),
    {
        self.root.children()
    }

    /// The window's children as a mutable slice: empty, or the one child.
    pub fn children_mut(&mut self) -> (r: &mut [Box<Widget<H>>])
        ensures
            r@ == old(self).root().kids(),
            final(r)@.len() == r@.len(),
            final(self).root() == old(self).root().with_child(
                match old(self).root().child() {
                    Some(_) => Some(final(r)@[0]),
                    None => None,
                },
            ),
    {
        self.root.children_mut()
    }

    /// The widget at the top of the tree.
    pub fn root_ref(&self) -> (r: &Widget<H>)
        ensures
            *r == self.root(),
    {
        &self.root
    }

    /// Sets whether the window is shown; reports whether that changed, which
    /// is when the window system has to be told.
    pub fn change_visibility(&mut self, vis: bool) -> (changed: bool)
        ensures
            changed == (old(self).root().state().visible != vis),
            final(self).root() == old(self).root().with_state(
                WidgetState { visible: vis, ..old(self).root().state() },
            ),
    {
        if self.root.state.visible != vis {
            self.root.state.visible = vis;
            true
        } else {
            false
        }
    }
}

impl<H: Handler> Window<H> {
    /// What `push_ext_event` returns for `e`, and the window it leaves.
    ///
    /// Input is routed through the tree. Geometry reports update the root's
    /// properties, to be reported by the next pull. Focus, suspension and a
    /// close request go to the root's own handler alone; a handler that takes
    /// the close request keeps the window open. A repaint request asks the
    /// host to draw. Anything else is dropped.
    pub open spec fn ext_handled(self, e: ExtEvent) -> (Reaction, Window<H>) {
        let root = self.root();
        match routed(e) {
            Some(ev) => (Reaction::Continue, self.with_root(root.pushed(ev).1)),
            None => match e {
                ExtEvent::Resized(w, h) => (
                    Reaction::Continue,
                    self.with_root(
                        root.with_state(
                            WidgetState { size: root.state().size.written((w, h)), ..root.state() },
                        ),
                    ),
                ),
                ExtEvent::Moved(x, y) => (
                    Reaction::Continue,
                    self.with_root(
                        root.with_state(
                            WidgetState {
                                position: root.state().position.written((x, y)),
                                ..root.state()
                            },
                        ),
                    ),
                ),
                ExtEvent::Refresh => (Reaction::Redraw, self),
                ExtEvent::Focused(f) => (
                    Reaction::Continue,
                    self.with_root(root.notified(Event::WindowFocused(f))),
                ),
                ExtEvent::Suspended(s) => (
                    Reaction::Continue,
                    self.with_root(root.notified(Event::Suspended(s))),
                ),
                ExtEvent::Closed => (
                    if root.callback().claims(root.state(), Event::WindowClosing) {
                        Reaction::Continue
                    } else {
                        Reaction::Close
                    },
                    self.with_root(root.notified(Event::WindowClosing)),
                ),
                _ => (Reaction::Continue, self),
            },
        }
    }
}

impl<H: Handler> TopLevel for Window<H> {
    fn push_ext_event(&mut self, ext_ev: ExtEvent) -> (r: Reaction)
        ensures
            (r, *final(self)) == old(self).ext_handled(ext_ev),
    {
        match ext_ev {
            ExtEvent::Resized(w, h) => {
                self.root.set_size(w, h);
                Reaction::Continue
            },
            ExtEvent::Moved(x, y) => {
                self.root.set_position(x, y);
                Reaction::Continue
            },
            ExtEvent::Refresh => Reaction::Redraw,
            ExtEvent::Focused(f) => {
                let _ = self.root.notify(&Event::WindowFocused(f));
                Reaction::Continue
            },
            ExtEvent::Suspended(s) => {
                let _ = self.root.notify(&Event::Suspended(s));
                Reaction::Continue
            },
            ExtEvent::Closed => {
                if self.root.notify(&Event::WindowClosing) {
                    Reaction::Continue
                } else {
                    Reaction::Close
                }
            },
            other => {
                if let Some(ev) = cast(other) {
                    let _ = self.root.push_event(&ev);
                }
                Reaction::Continue
            },
        }
    }
}

impl<H> HasLabel for Window<H> {
    fn get_label(&self) -> (r: &str)
        ensures
            r@ == self.root().state().label.value()@,
    {
        self.root.get_label()
    }

    fn set_label(&mut self, label: &str)
        ensures
            final(self).root().state().label.value()@ == label@,
            final(self).root().state().label.is_dirty(),
            final(self).root() == old(self).root().with_state(
                WidgetState { label: final(self).root().state().label, ..old(self).root().state() },
            ),
    {
        self.root.set_label(label);
    }
}

impl<H> HasSize for Window<H> {
    fn get_size(&self) -> (r: (u32, u32))
        ensures
            r == self.root().state().size.value(),
    {
        self.root.get_size()
    }

    fn set_size(&mut self, width: u32, height: u32)
        ensures
            final(self).root() == old(self).root().with_state(
                WidgetState {
                    size: old(self).root().state().size.written((width, height)),
                    ..old(self).root().state()
                },
            ),
    {
        self.root.set_size(width, height);
    }
}

impl<H> HasPosition for Window<H> {
    fn get_position(&self) -> (r: (i32, i32))
        ensures
            r == self.root().state().position.value(),
    {
        self.root.get_position()
    }

    fn set_position(&mut self, x: i32, y: i32)
        ensures
            final(self).root() == old(self).root().with_state(
                WidgetState {
                    position: old(self).root().state().position.written((x, y)),
                    ..old(self).root().state()
                },
            ),
    {
        self.root.set_position(x, y);
    }
}

impl<H> HasVisibility for Window<H> {
    closed spec fn visible(&self) -> bool {
        self.root.state.visible
    }

    fn is_visible(&self) -> (r: bool)
        ensures
            r == self.root().state().visible,
    {
        self.root.state.visible
    }

    fn set_visible(&mut self, vis: bool)
        ensures
            final(self).root() == old(self).root().with_state(
                WidgetState { visible: vis, ..old(self).root().state() },
            ),
    {
        let _ = self.change_visibility(vis);
    }
}

impl<H: Handler> HasEvents for Window<H> {
    type Handler = H;

    fn push_event(&mut self, ev: &Event) -> (r: bool)
        ensures
            (r, final(self).root()) == old(self).root().pushed(*ev),
    {
        self.root.push_event(ev)
    }

    fn pull_events(&mut self)
        ensures
            final(self).root() == old(self).root().pulled(),
    {
        self.root.pull_events()
    }

    fn on_event(&mut self, handler: H)
        ensures
            final(self).root().callback().handler() == Some(handler),
            final(self).root() == old(self).root().with_callback(final(self).root().callback()),
    {
        self.root.on_event(handler)
    }
}

impl<H> CanDraw for Window<H> {
    /// Clears the surface, then draws the tree below the window.
    fn draw<D: DrawContext>(&self, ctx: &mut D)
        ensures
            final(ctx).drawn() == match self.root().child() {
                Some(c) => c.draw_list(),
                None => Seq::empty(),
            },
    {
        ctx.clear();
        let kids = self.children();
        let mut i: usize = 0;
        while i < kids.len()
            invariant
                kids@ == self.root.kids(),
                0 <= i <= kids@.len(),
                ctx.drawn() == (if i == 0 { Seq::empty() } else { self.root.child.unwrap().draw_list() }),
            decreases kids@.len() - i,
        {
            kids[i].draw(ctx);
            i = i + 1;
        }
    }
}

} // verus!
