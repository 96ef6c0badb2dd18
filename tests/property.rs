use rtk::data::{EventCallback, Handler, Property};
use rtk::event::Event;
use rtk::traits::{HasLabel, HasPosition, HasSize, HasVisibility};
use rtk::widgets::WidgetState;

#[test]
fn new_property_is_clean() {
    let mut p = Property::new(3u32);
    assert_eq!(*p.get(), 3);
    assert!(!p.consume_event());
}

#[test]
fn many_sets_are_reported_once() {
    let mut p = Property::new(0i32);
    p.set(1);
    p.set(2);
    p.set(3);
    assert!(p.consume_event());
    assert!(!p.consume_event());
    assert!(!p.consume_event());
    assert_eq!(*p.get(), 3);
    p.set(4);
    assert!(p.consume_event());
    assert!(!p.consume_event());
    assert_eq!(*p.get(), 4);
}

#[test]
fn setting_an_equal_value_marks_dirty() {
    let mut p = Property::new(String::from("same"));
    p.set(String::from("same"));
    assert!(p.consume_event());
}

#[test]
fn consume_keeps_value() {
    let mut p = Property::new((1u32, 2u32));
    p.set((5, 6));
    p.consume_event();
    assert_eq!(*p.get(), (5, 6));
}

#[test]
fn property_reads_through_deref() {
    let p = Property::new(String::from("text"));
    assert_eq!(p.len(), 4);
    assert_eq!(&*p, "text");
}

#[test]
fn default_property_is_zero_and_clean() {
    let mut p: Property<u32> = Property::default();
    assert_eq!(*p.get(), 0);
    assert!(!p.consume_event());
    let s: Property<String> = Property::default();
    assert_eq!(s.get(), "");
}

struct Always;

impl Handler for Always {
    fn claims(&self, _owner: WidgetState, _ev: Event) -> bool {
        true
    }

    fn next(&self, _owner: WidgetState, _ev: Event) -> Self {
        Always
    }

    fn handle(&mut self, _owner: &WidgetState, _ev: &Event) -> bool {
        true
    }
}

#[test]
fn default_callback_takes_nothing() {
    let owner = WidgetState::new("owner", true);
    let mut cb: EventCallback<Always> = EventCallback::default();
    assert!(!cb.handle(&owner, &Event::WindowClosing));
    assert!(!cb.handle(&owner, &Event::Resized(1, 1)));
}

#[test]
fn filled_callback_answers_as_its_handler() {
    let owner = WidgetState::new("owner", true);
    let mut cb = EventCallback::new(Always);
    assert!(cb.handle(&owner, &Event::WindowClosing));
}

#[test]
fn widget_state_starts_clean_at_origin() {
    let mut s = WidgetState::new("hello", false);
    assert_eq!(s.get_label(), "hello");
    assert_eq!(s.get_size(), (0, 0));
    assert_eq!(s.get_position(), (0, 0));
    assert!(!s.is_visible());
    assert!(!s.label.consume_event());
    assert!(!s.size.consume_event());
    assert!(!s.position.consume_event());
    s.show();
    assert!(s.is_visible());
    s.conceal();
    assert!(!s.is_visible());
}
