use std::cell::RefCell;
use std::rc::Rc;

use rtk::data::Handler;
use rtk::event::{ElementState, Event, MouseButton};
use rtk::traits::{HasEvents, HasLabel, HasPosition, HasSize};
use rtk::widgets::{Widget, WidgetState};

type Log = Rc<RefCell<Vec<(String, String)>>>;

/// Notes every event it is given, with the label its owner had then, and
/// answers a fixed value.
struct Recorder {
    name: &'static str,
    takes: bool,
    log: Log,
}

impl Handler for Recorder {
    fn claims(&self, _owner: WidgetState, _ev: Event) -> bool {
        self.takes
    }

    fn next(&self, _owner: WidgetState, _ev: Event) -> Self {
        Recorder { name: self.name, takes: self.takes, log: self.log.clone() }
    }

    fn handle(&mut self, owner: &WidgetState, ev: &Event) -> bool {
        let _ = owner.get_label();
        self.log.borrow_mut().push((self.name.to_string(), format!("{:?}", ev)));
        self.takes
    }
}

fn recorder(name: &'static str, takes: bool, log: &Log) -> Recorder {
    Recorder { name, takes, log: log.clone() }
}

fn entries(log: &Log) -> Vec<(String, String)> {
    log.borrow().clone()
}

fn entry(name: &str, ev: &str) -> (String, String) {
    (name.to_string(), ev.to_string())
}

fn press() -> Event {
    Event::MouseInput(ElementState::Pressed, MouseButton::Left)
}

/// root -> a -> b, each with a recorder that takes events as given.
fn chain(root_takes: bool, a_takes: bool, b_takes: bool, log: &Log) -> Widget<Recorder> {
    let mut b = Widget::new("b");
    b.on_event(recorder("b", b_takes, log));
    let mut a = Widget::new("a");
    a.on_event(recorder("a", a_takes, log));
    a.add(b);
    let mut root = Widget::new("root");
    root.on_event(recorder("root", root_takes, log));
    root.add(a);
    root
}

#[test]
fn push_stops_at_first_taker() {
    let log: Log = Rc::new(RefCell::new(Vec::new()));
    let mut root = chain(true, true, true, &log);
    assert!(root.push_event(&press()));
    assert_eq!(entries(&log), vec![entry("b", "MouseInput(Pressed, Left)")]);
}

#[test]
fn push_falls_through_leaf_first() {
    let log: Log = Rc::new(RefCell::new(Vec::new()));
    let mut root = chain(false, false, false, &log);
    assert!(!root.push_event(&press()));
    assert_eq!(
        entries(&log),
        vec![
            entry("b", "MouseInput(Pressed, Left)"),
            entry("a", "MouseInput(Pressed, Left)"),
            entry("root", "MouseInput(Pressed, Left)"),
        ]
    );
}

#[test]
fn push_taken_in_the_middle() {
    let log: Log = Rc::new(RefCell::new(Vec::new()));
    let mut root = chain(true, true, false, &log);
    assert!(root.push_event(&Event::ReceivedCharacter('x')));
    assert_eq!(
        entries(&log),
        vec![entry("b", "ReceivedCharacter('x')"), entry("a", "ReceivedCharacter('x')")]
    );
}

#[test]
fn push_without_handlers_is_not_taken() {
    let mut root: Widget<Recorder> = Widget::new("root");
    root.add(Widget::new("child"));
    assert!(!root.push_event(&press()));
}

#[test]
fn push_on_leaf_asks_own_handler() {
    let log: Log = Rc::new(RefCell::new(Vec::new()));
    let mut leaf = Widget::new("leaf");
    leaf.on_event(recorder("leaf", true, &log));
    assert!(leaf.push_event(&Event::WindowFocused(true)));
    assert_eq!(entries(&log), vec![entry("leaf", "WindowFocused(true)")]);
}

#[test]
fn push_leaves_properties_alone() {
    let log: Log = Rc::new(RefCell::new(Vec::new()));
    let mut root = chain(false, false, false, &log);
    root.push_event(&press());
    root.pull_events();
    assert_eq!(entries(&log).len(), 3);
}

#[test]
fn pull_reaches_every_widget_root_first() {
    let log: Log = Rc::new(RefCell::new(Vec::new()));
    let mut b = Widget::new("b");
    b.on_event(recorder("b", true, &log));
    b.set_position(-4, 9);
    let mut a = Widget::new("a");
    a.on_event(recorder("a", true, &log));
    a.set_size(320, 240);
    a.add(b);
    let mut root = Widget::new("root");
    root.on_event(recorder("root", true, &log));
    root.set_label("top");
    root.add(a);
    root.pull_events();
    assert_eq!(
        entries(&log),
        vec![
            entry("root", "LabelChanged(\"top\")"),
            entry("a", "Resized(320, 240)"),
            entry("b", "Moved(-4, 9)"),
        ]
    );
}

#[test]
fn second_pull_reports_nothing() {
    let log: Log = Rc::new(RefCell::new(Vec::new()));
    let mut root = chain(false, false, false, &log);
    root.set_label("x");
    root.children_mut()[0].set_size(1, 2);
    root.pull_events();
    assert_eq!(entries(&log).len(), 2);
    root.pull_events();
    assert_eq!(entries(&log).len(), 2);
}

#[test]
fn pull_reports_label_then_size_then_position() {
    let log: Log = Rc::new(RefCell::new(Vec::new()));
    let mut w = Widget::new("w");
    w.on_event(recorder("w", false, &log));
    w.set_position(3, 4);
    w.set_size(5, 6);
    w.set_label("new");
    w.pull_events();
    assert_eq!(
        entries(&log),
        vec![
            entry("w", "LabelChanged(\"new\")"),
            entry("w", "Resized(5, 6)"),
            entry("w", "Moved(3, 4)"),
        ]
    );
}

#[test]
fn pull_carries_current_value_after_many_writes() {
    let log: Log = Rc::new(RefCell::new(Vec::new()));
    let mut w = Widget::new("w");
    w.on_event(recorder("w", false, &log));
    w.set_size(1, 1);
    w.set_size(2, 2);
    w.set_size(7, 8);
    w.pull_events();
    assert_eq!(entries(&log), vec![entry("w", "Resized(7, 8)")]);
}

#[test]
fn writing_the_same_value_is_still_reported() {
    let log: Log = Rc::new(RefCell::new(Vec::new()));
    let mut w = Widget::new("same");
    w.on_event(recorder("w", false, &log));
    w.set_label("same");
    w.pull_events();
    assert_eq!(entries(&log), vec![entry("w", "LabelChanged(\"same\")")]);
}

#[test]
fn label_waffle_scenario() {
    let log: Log = Rc::new(RefCell::new(Vec::new()));
    let mut b = Widget::new("b");
    b.on_event(recorder("b", false, &log));
    let mut a = Widget::new("a");
    a.on_event(recorder("a", false, &log));
    a.add(b);
    a.set_label("waffle");
    assert!(!a.push_event(&press()));
    assert_eq!(
        entries(&log),
        vec![entry("b", "MouseInput(Pressed, Left)"), entry("a", "MouseInput(Pressed, Left)")]
    );
    log.borrow_mut().clear();
    a.pull_events();
    assert_eq!(entries(&log), vec![entry("a", "LabelChanged(\"waffle\")")]);
    assert_eq!(a.get_label(), "waffle");
    assert_eq!(a.children()[0].get_label(), "b");
}

#[test]
fn new_handler_replaces_old() {
    let log: Log = Rc::new(RefCell::new(Vec::new()));
    let mut w = Widget::new("w");
    w.on_event(recorder("first", true, &log));
    w.on_event(recorder("second", false, &log));
    assert!(!w.push_event(&press()));
    assert_eq!(entries(&log), vec![entry("second", "MouseInput(Pressed, Left)")]);
}

/// Takes an event only when its owner is labelled "mine" and sized 10 by 20.
struct Checker;

impl Handler for Checker {
    fn claims(&self, owner: WidgetState, _ev: Event) -> bool {
        owner.get_label() == "mine" && owner.get_size() == (10, 20)
    }

    fn next(&self, _owner: WidgetState, _ev: Event) -> Self {
        Checker
    }

    fn handle(&mut self, owner: &WidgetState, _ev: &Event) -> bool {
        owner.get_label() == "mine" && owner.get_size() == (10, 20)
    }
}
#[test]
fn handler_sees_owner_state() {
    let mut w = Widget::new("mine");
    w.set_size(10, 20);
    w.on_event(Checker);
    assert!(w.push_event(&press()));
}

#[test]
fn children_slice_follows_child_slot() {
    let mut w: Widget<Recorder> = Widget::new("parent");
    assert_eq!(w.children().len(), 0);
    w.add(Widget::new("kid"));
    assert_eq!(w.children().len(), 1);
    assert_eq!(w.children()[0].get_label(), "kid");
    w.add(Widget::new("other"));
    assert_eq!(w.children().len(), 1);
    assert_eq!(w.children()[0].get_label(), "other");
}

#[test]
fn children_mut_writes_reach_the_child() {
    let mut w: Widget<Recorder> = Widget::new("parent");
    assert_eq!(w.children_mut().len(), 0);
    w.add(Widget::new("kid"));
    w.children_mut()[0].set_label("renamed");
    assert_eq!(w.children()[0].get_label(), "renamed");
}
