use piston2d::input::{Button, ControllerButton};
use piston2d::opengl::OpenGL;
use piston2d::window::events::{
    ButtonArgs, ButtonState, Event, EventSettings, Input, Loop, RenderArgs, UpdateArgs, Viewport,
};
use piston2d::{init, Frame, Piston2dApp};
use std::collections::HashSet;

fn button(state: ButtonState, button: Button) -> Event<f64> {
    Event::Input(Input::Button(ButtonArgs { state, button, scancode: None }))
}

fn nothing_to_do() -> Frame<f64> {
    Frame { render: None, update: false }
}

fn codes(keys: &[u32]) -> HashSet<u32> {
    keys.iter().copied().collect()
}

#[test]
fn a_new_application_is_empty() {
    let app: Piston2dApp<&str> = Piston2dApp::new();
    assert!(app.keys.is_empty());
    assert!(app.render_handlers.is_empty());
    assert!(app.update_handlers.is_empty());
}

#[test]
fn tick_on_a_render_event_asks_to_draw_to_the_full_viewport() {
    let mut app: Piston2dApp<&str> = Piston2dApp::new();
    let e = Event::Loop(Loop::Render(RenderArgs {
        ext_dt: 0.5,
        window_size: [320.0, 240.0],
        draw_size: [640, 480],
    }));
    let frame = app.tick(&e);
    assert_eq!(
        frame,
        Frame {
            render: Some(Viewport {
                rect: [0, 0, 640, 480],
                draw_size: [640, 480],
                window_size: [320.0, 240.0],
            }),
            update: false,
        }
    );
    assert!(app.keys.is_empty());
}

#[test]
fn tick_on_an_update_event_asks_to_update() {
    let mut app: Piston2dApp<&str> = Piston2dApp::new();
    let frame = app.tick(&Event::Loop(Loop::Update(UpdateArgs { dt: 0.01 })));
    assert_eq!(frame, Frame { render: None, update: true });
    assert!(app.keys.is_empty());
}

#[test]
fn tick_on_other_events_asks_for_nothing() {
    let mut app: Piston2dApp<&str> = Piston2dApp::new();
    let events: [Event<f64>; 5] = [
        Event::Loop(Loop::AfterRender),
        Event::Loop(Loop::Idle),
        Event::Input(Input::Move),
        Event::Input(Input::Close),
        Event::Custom,
    ];
    for e in events.iter() {
        assert_eq!(app.tick(e), nothing_to_do());
        assert!(app.keys.is_empty());
    }
}

#[test]
fn tick_adds_a_pressed_key_and_removes_a_released_one() {
    let mut app: Piston2dApp<&str> = Piston2dApp::new();
    assert_eq!(app.tick(&button(ButtonState::Press, Button::Keyboard(0x61))), nothing_to_do());
    assert_eq!(app.keys, codes(&[0x61]));
    app.tick(&button(ButtonState::Press, Button::Keyboard(0x62)));
    assert_eq!(app.keys, codes(&[0x61, 0x62]));
    app.tick(&button(ButtonState::Release, Button::Keyboard(0x61)));
    assert_eq!(app.keys, codes(&[0x62]));
    app.tick(&button(ButtonState::Release, Button::Keyboard(0x62)));
    assert_eq!(app.keys, codes(&[]));
}

#[test]
fn tick_holds_a_key_once_however_often_it_is_pressed() {
    let mut app: Piston2dApp<&str> = Piston2dApp::new();
    app.tick(&button(ButtonState::Press, Button::Keyboard(0x20)));
    app.tick(&button(ButtonState::Press, Button::Keyboard(0x20)));
    assert_eq!(app.keys, codes(&[0x20]));
    app.tick(&button(ButtonState::Release, Button::Keyboard(0x20)));
    assert!(app.keys.is_empty());
}

#[test]
fn tick_ignores_the_release_of_a_key_that_is_not_held() {
    let mut app: Piston2dApp<&str> = Piston2dApp::new();
    app.tick(&button(ButtonState::Press, Button::Keyboard(1)));
    app.tick(&button(ButtonState::Release, Button::Keyboard(2)));
    assert_eq!(app.keys, codes(&[1]));
}

#[test]
fn tick_keeps_no_mouse_or_controller_buttons() {
    let mut app: Piston2dApp<&str> = Piston2dApp::new();
    app.tick(&button(ButtonState::Press, Button::Keyboard(1)));
    app.tick(&button(ButtonState::Press, Button::Mouse(2)));
    app.tick(&button(
        ButtonState::Press,
        Button::Controller(ControllerButton { id: 0, button: 3 }),
    ));
    assert_eq!(app.keys, codes(&[1]));
    app.tick(&button(ButtonState::Release, Button::Mouse(1)));
    assert_eq!(app.keys, codes(&[1]));
}

#[test]
fn tick_leaves_the_handlers_alone() {
    let mut app: Piston2dApp<&str> = Piston2dApp::new();
    app.render("draw", true);
    app.update("step", true);
    app.tick(&Event::Loop(Loop::Update(UpdateArgs { dt: 0.01 })));
    app.tick(&button(ButtonState::Press, Button::Keyboard(1)));
    assert_eq!(app.render_handlers, vec!["draw"]);
    assert_eq!(app.update_handlers, vec!["step"]);
}

#[test]
fn render_registers_callable_handlers_in_order() {
    let mut app: Piston2dApp<&str> = Piston2dApp::new();
    app.render("first", true);
    app.render("not a function", false);
    app.render("second", true);
    assert_eq!(app.render_handlers, vec!["first", "second"]);
    assert!(app.update_handlers.is_empty());
}

#[test]
fn update_registers_callable_handlers_in_order() {
    let mut app: Piston2dApp<&str> = Piston2dApp::new();
    app.update("first", true);
    app.update("not a function", false);
    app.update("second", true);
    app.update("first", true);
    assert_eq!(app.update_handlers, vec!["first", "second", "first"]);
    assert!(app.render_handlers.is_empty());
}

#[test]
fn init_sets_up_a_decorated_window_that_closes_on_esc() {
    let start = init::<&str>("Game", [800, 600]);
    let s = &start.settings;
    assert_eq!(s.get_title(), "Game");
    assert_eq!(s.get_size(), [800, 600]);
    assert!(s.get_decorated());
    assert!(s.get_exit_on_esc());
    assert_eq!(s.get_samples(), 0);
    assert!(!s.get_fullscreen());
    assert!(s.get_automatic_close());
    assert!(!s.get_vsync());
    assert!(s.get_srgb());
    assert!(s.get_resizable());
    assert!(s.get_controllers());
    assert!(!s.get_transparent());
}

#[test]
fn init_picks_opengl_3_2_and_a_new_event_loop() {
    let start = init::<&str>("Game", [800, 600]);
    assert_eq!(start.opengl, OpenGL::V3_2);
    assert_eq!(start.events, EventSettings::new());
}

#[test]
fn init_starts_with_no_keys_and_no_handlers() {
    let start = init::<&str>("", [0, 0]);
    assert!(start.app.keys.is_empty());
    assert!(start.app.render_handlers.is_empty());
    assert!(start.app.update_handlers.is_empty());
}
