use simloop::event::{Event, EventData, Key, Message, Point, Rect, Route};

#[test]
fn rect_extent_and_centre() {
    let r = Rect { left: 0, top: 0, right: 2560, bottom: 1440 };
    assert_eq!(r.width(), 2560);
    assert_eq!(r.height(), 1440);
    assert_eq!(r.center_x(), 1280);
    assert_eq!(r.center_y(), 720);
}

#[test]
fn rect_centre_rounds_toward_zero() {
    let r = Rect { left: -4, top: -8, right: 1, bottom: 1 };
    assert_eq!(r.center_x(), -1);
    assert_eq!(r.center_y(), -3);
    let s = Rect { left: 0, top: 0, right: 3, bottom: 7 };
    assert_eq!(s.center_x(), 1);
    assert_eq!(s.center_y(), 3);
}

#[test]
fn rect_extent_at_the_limits() {
    let r = Rect { left: i32::MIN, top: i32::MAX, right: i32::MAX, bottom: i32::MIN };
    assert_eq!(r.width(), 4294967295);
    assert_eq!(r.height(), -4294967295);
    assert_eq!(r.center_x(), 0);
    assert_eq!(r.center_y(), 0);
    let s = Rect { left: i32::MAX, top: i32::MIN, right: i32::MAX, bottom: i32::MIN };
    assert_eq!(s.center_x(), i32::MAX);
    assert_eq!(s.center_y(), i32::MIN);
}

#[test]
fn rect_empty_has_no_extent() {
    let r = Rect::empty();
    assert_eq!(r, Rect { left: 0, top: 0, right: 0, bottom: 0 });
    assert_eq!(r.width(), 0);
    assert_eq!(r.height(), 0);
}

#[test]
fn paint_goes_to_the_render_side_only() {
    assert_eq!(Message::Paint.route(), Route { render: true, simulation: false });
}

#[test]
fn resize_and_mouse_move_go_to_both_sides() {
    assert_eq!(Message::Resize.route(), Route { render: true, simulation: true });
    assert_eq!(Message::MouseMove.route(), Route { render: true, simulation: true });
}

#[test]
fn key_events_go_to_the_simulation_side_only() {
    assert_eq!(Message::KeyDown.route(), Route { render: false, simulation: true });
    assert_eq!(Message::KeyUp.route(), Route { render: false, simulation: true });
}

#[test]
fn constructors_pair_tag_and_payload() {
    let rect = Rect { left: 1, top: 2, right: 3, bottom: 4 };
    assert_eq!(Event::resize(rect), Event { message: Message::Resize, data: EventData::Resize(rect) });
    assert_eq!(Event::paint(), Event { message: Message::Paint, data: EventData::Empty });
    let at = Point { x: 5, y: 6 };
    assert_eq!(Event::mouse_move(at), Event { message: Message::MouseMove, data: EventData::MouseMove(at) });
    assert_eq!(
        Event::key_down(Key::Left, true),
        Event { message: Message::KeyDown, data: EventData::KeyDown { key: Key::Left, repeat: true } }
    );
    assert_eq!(
        Event::key_up(Key::Jump),
        Event { message: Message::KeyUp, data: EventData::KeyUp { key: Key::Jump } }
    );
}

#[test]
fn constructed_events_are_well_formed() {
    assert!(Event::resize(Rect::empty()).well_formed());
    assert!(Event::paint().well_formed());
    assert!(Event::mouse_move(Point { x: 0, y: 0 }).well_formed());
    assert!(Event::key_down(Key::Other, false).well_formed());
    assert!(Event::key_up(Key::Other).well_formed());
}

#[test]
fn mismatched_payload_is_not_well_formed() {
    assert!(!Event { message: Message::Paint, data: EventData::Resize(Rect::empty()) }.well_formed());
    assert!(!Event { message: Message::Resize, data: EventData::Empty }.well_formed());
    assert!(!Event { message: Message::MouseMove, data: EventData::KeyUp { key: Key::Left } }.well_formed());
    assert!(!Event { message: Message::KeyDown, data: EventData::KeyUp { key: Key::Left } }.well_formed());
    assert!(!Event { message: Message::KeyUp, data: EventData::KeyDown { key: Key::Left, repeat: false } }
        .well_formed());
}
