use funfriend::buddy::Buddy;
use funfriend::config::Config;
use funfriend::dialog::Dialog;
use funfriend::input::{wants_close, InputEvent, Key, KeyAction};
use funfriend::render::DrawCall;
use funfriend::scheduler::{BuddyContext, Context, FrameInput, Funfriend};
use funfriend::texture::{SizedTexture, TextureBasket};
use funfriend::vec2::Vec2;
use funfriend::window::Window;

fn test_config() -> Config {
    Config::new(Vec2 { x: 512, y: 512 }, String::from("standard"))
}

fn buddy_context() -> Context {
    let frames = vec![SizedTexture { tex: 5, width: 64, height: 64 }];
    let basket = TextureBasket::new(frames, 100);
    let buddy = Buddy::new(&test_config(), basket, None, 1, 2, 3, 4);
    let window = Window::new(512, 512, String::from("buddy"));
    Context::Buddy(BuddyContext::new(buddy, window))
}

fn dialog_context(duration: i64) -> Context {
    Context::Dialog(Dialog::new(
        String::from("hello"),
        String::from("font"),
        100,
        20,
        Vec2 { x: 300, y: 300 },
        duration,
        None,
    ))
}

fn quiet_input(dt: i64) -> FrameInput {
    FrameInput { events: Vec::new(), dt, time: 0, viewport: Vec2 { x: 512, y: 512 } }
}

fn escape_input(dt: i64) -> FrameInput {
    FrameInput {
        events: vec![InputEvent::Key(Key::Escape, KeyAction::Press)],
        dt,
        time: 0,
        viewport: Vec2 { x: 512, y: 512 },
    }
}

#[test]
fn wants_close_sees_the_escape_press() {
    let events = vec![
        InputEvent::Other,
        InputEvent::Key(Key::Other, KeyAction::Press),
        InputEvent::Key(Key::Escape, KeyAction::Press),
    ];
    assert!(wants_close(&events));
}

#[test]
fn wants_close_ignores_everything_else() {
    let events = vec![
        InputEvent::Key(Key::Escape, KeyAction::Release),
        InputEvent::Key(Key::Escape, KeyAction::Repeat),
        InputEvent::Key(Key::Other, KeyAction::Press),
        InputEvent::Other,
    ];
    assert!(!wants_close(&events));
    assert!(!wants_close(&Vec::new()));
}

#[test]
fn buddy_only_loop_keeps_running() {
    let mut app = Funfriend::new(test_config());
    app.add_context(buddy_context());
    for _ in 0..10 {
        let plans = app.run_frame(vec![quiet_input(8)]);
        assert_eq!(app.contexts().len(), 1);
        assert_eq!(plans.len(), 1);
        assert!(!app.is_done());
    }
}

#[test]
fn forced_close_retires_context_and_persists_config_once() {
    let mut app = Funfriend::new(test_config());
    let mut ctx = dialog_context(5000);
    ctx.set_should_close(true);
    app.add_context(ctx);
    let plans = app.run_frame(vec![quiet_input(8)]);
    assert_eq!(app.contexts().len(), 0);
    assert_eq!(plans.len(), 0);
    assert!(app.is_done());
    assert!(!app.config_persisted);
    app.shutdown();
    assert!(app.config_persisted);
}

#[test]
fn escape_closes_only_its_own_context() {
    let mut app = Funfriend::new(test_config());
    app.add_context(dialog_context(5000));
    app.add_context(buddy_context());
    let plans = app.run_frame(vec![escape_input(8), quiet_input(8)]);
    assert_eq!(app.contexts().len(), 1);
    assert_eq!(plans.len(), 1);
    assert!(matches!(app.contexts()[0], Context::Buddy(_)));
}

#[test]
fn closing_the_first_leaves_the_second_running() {
    let mut app = Funfriend::new(test_config());
    app.add_context(dialog_context(100));
    app.add_context(dialog_context(10_000));
    // first pass: the first dialog expires, the second keeps going
    app.run_frame(vec![quiet_input(100), quiet_input(100)]);
    assert_eq!(app.contexts().len(), 2);
    // the first context reported close; this pass retires it
    let plans = app.run_frame(vec![quiet_input(100), quiet_input(100)]);
    assert_eq!(app.contexts().len(), 1);
    assert_eq!(plans.len(), 1);
    // the survivor continues to be updated on later passes
    let plans = app.run_frame(vec![quiet_input(100)]);
    assert_eq!(plans.len(), 1);
    match &app.contexts()[0] {
        Context::Dialog(d) => assert_eq!(d.timer, 10_000 - 300),
        Context::Buddy(_) => panic!("survivor must be the second dialog"),
    }
}

#[test]
fn expired_dialog_is_cleaned_up_next_pass_never_before() {
    let mut app = Funfriend::new(test_config());
    app.add_context(dialog_context(50));
    // the timer expires during this pass, but the context finishes its frame
    let plans = app.run_frame(vec![quiet_input(50)]);
    assert_eq!(plans.len(), 1);
    assert_eq!(app.contexts().len(), 1);
    // the next pass sees the flag and retires the context
    let plans = app.run_frame(vec![quiet_input(8)]);
    assert_eq!(plans.len(), 0);
    assert!(app.is_done());
}

#[test]
fn survivors_keep_their_relative_order() {
    let mut app = Funfriend::new(test_config());
    app.add_context(dialog_context(1000));
    app.add_context(dialog_context(2000));
    app.add_context(dialog_context(3000));
    // close the middle one
    app.run_frame(vec![quiet_input(1), escape_input(1), quiet_input(1)]);
    assert_eq!(app.contexts().len(), 2);
    let timers: Vec<i64> = app
        .contexts()
        .iter()
        .map(|c| match c {
            Context::Dialog(d) => d.timer,
            Context::Buddy(_) => panic!("only dialogs here"),
        })
        .collect();
    assert_eq!(timers, vec![999, 2999]);
}

#[test]
fn plans_come_back_one_per_survivor_in_order() {
    let mut app = Funfriend::new(test_config());
    app.add_context(buddy_context());
    app.add_context(dialog_context(1000));
    let plans = app.run_frame(vec![quiet_input(8), quiet_input(8)]);
    assert_eq!(plans.len(), 2);
    assert!(matches!(plans[0].draws[0], DrawCall::Body { .. }));
    assert!(matches!(plans[1].draws[0], DrawCall::Text { .. }));
}
