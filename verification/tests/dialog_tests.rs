use funfriend::dialog::{Dialog, BUMP_GAP, DEFAULT_DURATION, PADDING};
use funfriend::render::{ClearColor, DrawCall};
use funfriend::vec2::Vec2;

fn plain_dialog(duration: i64) -> Dialog {
    Dialog::new(
        String::from("hi"),
        String::from("font"),
        100,
        20,
        Vec2 { x: 500, y: 400 },
        duration,
        None,
    )
}

fn parent_child() -> Dialog {
    let parent = Dialog::new(
        String::from("first"),
        String::from("font"),
        80,
        30,
        Vec2 { x: 200, y: 200 },
        5000,
        None,
    );
    // parent window: size (100, 50), position (150, 175)
    Dialog::new(
        String::from("second"),
        String::from("font"),
        40,
        10,
        Vec2 { x: 300, y: 300 },
        1000,
        Some(Box::new(parent)),
    )
}

#[test]
fn new_sizes_window_around_text_with_padding() {
    let d = plain_dialog(1000);
    assert_eq!(d.window_size, Vec2 { x: 100 + 2 * PADDING, y: 20 + 2 * PADDING });
    assert_eq!(d.window.size, d.window_size);
    // centered on the anchor position
    assert_eq!(d.window.pos, Vec2 { x: 500 - 60, y: 400 - 20 });
    assert_eq!(d.timer, 1000);
    assert!(!d.window.close_requested);
    assert_eq!(d.parent_relative_pos, Vec2 { x: 0, y: 0 });
    assert!(!d.text.cleaned);
    assert_eq!(d.text.width, 120);
    assert_eq!(d.text.height, 40);
}

#[test]
fn new_accepts_the_largest_text_extent() {
    let max = 0x4000_0000;
    let d = Dialog::new(
        String::from("big"),
        String::from("font"),
        max,
        max,
        Vec2 { x: 0, y: 0 },
        1,
        None,
    );
    assert_eq!(d.window_size, Vec2 { x: max + 2 * PADDING, y: max + 2 * PADDING });
    assert_eq!(d.window.pos.x, -(max + 2 * PADDING) / 2);
}

#[test]
fn new_stores_offset_from_parent_center() {
    let d = parent_child();
    // anchor - parent half size: (300 - 50, 300 - 25)
    assert_eq!(d.parent_relative_pos, Vec2 { x: 250, y: 275 });
}

#[test]
fn timer_stays_open_before_duration_and_closes_at_it() {
    let mut d = plain_dialog(100);
    d.update(30);
    assert!(!d.should_close());
    d.update(30);
    assert!(!d.should_close());
    d.update(30);
    assert!(!d.should_close());
    assert_eq!(d.timer, 10);
    d.update(10);
    assert!(d.should_close());
    assert_eq!(d.timer, 0);
}

#[test]
fn timer_carries_the_signed_remainder_past_expiry() {
    let mut d = plain_dialog(10);
    d.update(30);
    assert!(d.should_close());
    assert_eq!(d.timer, 10 - 30);
}

#[test]
fn zero_duration_closes_on_first_update() {
    let mut d = plain_dialog(0);
    assert!(!d.should_close());
    d.update(0);
    assert!(d.should_close());
}

#[test]
fn default_duration_is_six_seconds() {
    assert_eq!(DEFAULT_DURATION, 6000);
    let mut d = plain_dialog(DEFAULT_DURATION);
    d.update(5999);
    assert!(!d.should_close());
    d.update(1);
    assert!(d.should_close());
}

#[test]
fn update_pos_without_parent_keeps_position() {
    let mut d = plain_dialog(1000);
    let before = d.window.pos;
    d.update_pos();
    assert_eq!(d.window.pos, before);
}

#[test]
fn update_pos_derives_position_from_parent() {
    let mut d = parent_child();
    d.update_pos();
    // parent pos + parent half + offset - own half:
    // x: 150 + 50 + 250 - 30 = 420, y: 175 + 25 + 275 - 15 = 460
    assert_eq!(d.window.pos, Vec2 { x: 420, y: 460 });
}

#[test]
fn moving_parent_by_v_moves_child_by_v() {
    let mut d = parent_child();
    d.update_pos();
    let before = d.window.pos;
    // drag the parent window by (7, -3)
    d.set_parent_window_pos(150 + 7, 175 - 3);
    d.update_pos();
    assert_eq!(d.window.pos, Vec2 { x: before.x + 7, y: before.y - 3 });
}

#[test]
fn bump_twice_shifts_offset_by_twice_height_plus_gap() {
    let mut d = parent_child();
    let start = d.parent_relative_pos.y;
    let height = d.window_size.y;
    d.bump();
    assert_eq!(d.parent_relative_pos.y, start - (height + BUMP_GAP));
    d.bump();
    assert_eq!(d.parent_relative_pos.y, start - 2 * (height + BUMP_GAP));
    assert_eq!(d.parent_relative_pos.x, 250);
}

#[test]
fn bump_repositions_the_window() {
    let mut d = parent_child();
    d.update_pos();
    let before = d.window.pos;
    d.bump();
    assert_eq!(d.window.pos, Vec2 { x: before.x, y: before.y - (30 + BUMP_GAP) });
}

#[test]
fn render_clears_opaque_black_and_draws_text() {
    let d = plain_dialog(1000);
    let plan = d.render(16);
    assert_eq!(plan.clear, ClearColor { red: 0, green: 0, blue: 0, alpha: 255 });
    assert_eq!(plan.viewport, None);
    assert_eq!(plan.draws, vec![DrawCall::Text { width: 120, height: 40 }]);
}

#[test]
fn update_repositions_and_renders_in_order() {
    let mut d = parent_child();
    let plan = d.update(100);
    assert_eq!(d.timer, 900);
    assert_eq!(d.window.pos, Vec2 { x: 420, y: 460 });
    assert_eq!(plan.draws, vec![DrawCall::Text { width: 60, height: 30 }]);
}

#[test]
fn get_window_reaches_the_dialogs_own_window() {
    let mut d = plain_dialog(1000);
    let w = d.get_window();
    assert_eq!(w.size, Vec2 { x: 120, y: 40 });
    w.set_should_close(true);
    assert!(d.should_close());
}

#[test]
fn clean_up_marks_renderer_released() {
    let mut d = plain_dialog(1000);
    d.clean_up();
    assert!(d.text.cleaned);
}
