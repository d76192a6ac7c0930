use funfriend::vec2::Vec2;
use funfriend::window::Window;

#[test]
fn new_window_is_at_origin_and_open() {
    let w = Window::new(640, 480, String::from("main"));
    assert_eq!(w.pos, Vec2 { x: 0, y: 0 });
    assert_eq!(w.size, Vec2 { x: 640, y: 480 });
    assert_eq!(w.title, "main");
    assert!(!w.should_close());
}

#[test]
fn set_pos_moves_only_the_position() {
    let mut w = Window::new(640, 480, String::from("main"));
    w.set_pos(-15, 20);
    assert_eq!(w.get_pos(), Vec2 { x: -15, y: 20 });
    assert_eq!(w.size, Vec2 { x: 640, y: 480 });
    assert!(!w.should_close());
}

#[test]
fn close_flag_is_sticky_until_reset() {
    let mut w = Window::new(10, 10, String::from("t"));
    w.set_should_close(true);
    assert!(w.should_close());
    w.set_should_close(false);
    assert!(!w.should_close());
}

#[test]
fn vec2_constructors() {
    assert_eq!(Vec2::new(3, -4), Vec2 { x: 3, y: -4 });
    assert_eq!(Vec2::zero(), Vec2 { x: 0, y: 0 });
}
