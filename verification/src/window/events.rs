//! Events of a window and of the loop that drives it.
//!
//! Times in seconds and lengths in points are of a scalar type `S` that the
//! library stores and hands back, and never computes with.

use vstd::prelude::*;
use crate::input::Button;

verus! {

/// The part of the frame buffer that is drawn to.
#[derive(Clone, Copy, Debug, PartialEq)]
pub struct Viewport<S> {
    /// The rectangle in pixels, as `[x, y, width, height]`, where `(x, y)` is
    /// the lower left corner.
    pub rect: [i32; 4],
    /// The size of the frame buffer in pixels.
    pub draw_size: [u32; 2],
    /// The size of the window in points.
    pub window_size: [S; 2],
}

impl<S: Copy> Viewport<S> {
    /// The rectangle in pixels.
    pub fn rect(&self) -> (r: [i32; 4])
        ensures
            r == self.rect,
    {
        self.rect
    }

    /// The size of the frame buffer in pixels.
    pub fn draw_size(&self) -> (r: [u32; 2])
        ensures
            r == self.draw_size,
    {
        self.draw_size
    }

    /// The size of the window in points.
    pub fn window_size(&self) -> (r: [S; 2])
        ensures
            r == self.window_size,
    {
        self.window_size
    }
}

/// A count of pixels as a signed coordinate, as a cast gives it: the count
/// itself while it fits, and `2^32` less from `2^31` on.
pub open spec fn pixels_as_coordinate(n: u32) -> i32 {
    if n <= 0x7fff_ffff {
        n as i32
    } else {
        (n - 0x1_0000_0000) as i32
    }
}

/// The cast of a pixel count to a signed coordinate is `pixels_as_coordinate`.
proof fn lemma_cast_is_pixels_as_coordinate(n: u32)
    ensures
        n as i32 == pixels_as_coordinate(n),
{
    assert(n <= 0x7fff_ffffu32 ==> (n as i32) as int == n as int) by (bit_vector);
    assert(n > 0x7fff_ffffu32 ==> (n as i32) as int == n as int - 0x1_0000_0000) by (bit_vector);
}

/// What a render event carries.
#[derive(Clone, Copy, Debug, PartialEq)]
pub struct RenderArgs<S> {
    /// Extrapolated time in seconds, for smooth animation.
    pub ext_dt: S,
    /// The width and height of the rendered area in points.
    pub window_size: [S; 2],
    /// The width and height of the rendered area in pixels.
    pub draw_size: [u32; 2],
}

impl<S: Copy> RenderArgs<S> {
    /// The extrapolated time in seconds.
    pub fn ext_dt(&self) -> (r: S)
        ensures
            r == self.ext_dt,
    {
        self.ext_dt
    }

    /// The size of the rendered area in points.
    pub fn window_size(&self) -> (r: [S; 2])
        ensures
            r == self.window_size,
    {
        self.window_size
    }

    /// The size of the rendered area in pixels.
    pub fn draw_size(&self) -> (r: [u32; 2])
        ensures
            r == self.draw_size,
    {
        self.draw_size
    }

    /// The viewport that fills the whole rendered area: its rectangle starts
    /// at the origin and is as wide and high as the area is in pixels.
    pub open spec fn spec_viewport(&self) -> Viewport<S> {
        Viewport {
            rect: [
                0,
                0,
                pixels_as_coordinate(self.draw_size[0]),
                pixels_as_coordinate(self.draw_size[1]),
            ],
            draw_size: self.draw_size,
            window_size: self.window_size,
        }
    }

    /// The viewport that fills the whole rendered area.
    #[verifier::when_used_as_spec(spec_viewport)]
    pub fn viewport(&self) -> (r: Viewport<S>)
        ensures
            r == self.spec_viewport(),
    {
        let width: i32 = #[verifier::truncate] (self.draw_size[0] as i32);
        let height: i32 = #[verifier::truncate] (self.draw_size[1] as i32);
        proof {
            lemma_cast_is_pixels_as_coordinate(self.draw_size[0]);
            lemma_cast_is_pixels_as_coordinate(self.draw_size[1]);
        }
        Viewport {
            rect: [0, 0, width, height],
            draw_size: self.draw_size,
            window_size: self.window_size,
        }
    }
}

/// What an update event carries.
#[derive(Clone, Copy, Debug, PartialEq)]
pub struct UpdateArgs<S> {
    /// The time since the last update, in seconds.
    pub dt: S,
}

impl<S: Copy> UpdateArgs<S> {
    /// The time since the last update, in seconds.
    pub fn dt(&self) -> (r: S)
        ensures
            r == self.dt,
    {
        self.dt
    }
}

/// Whether a button went down or came up.
#[derive(Clone, Copy, Debug, PartialEq, Eq, Hash, Structural)]
pub enum ButtonState {
    /// The button was pressed.
    Press,
    /// The button was released.
    Release,
}

/// A change of a button's state.
#[derive(Clone, Copy, Debug, PartialEq, Eq, Hash, Structural)]
pub struct ButtonArgs {
    /// The new state of the button.
    pub state: ButtonState,
    /// The button that changed.
    pub button: Button,
    /// The place of a key on the keyboard, where the window reports it.
    pub scancode: Option<i32>,
}

/// What a user or the window system did. Only a change of a button carries
/// its details; of the others the kind is kept.
#[derive(Clone, Copy, Debug, PartialEq, Eq, Hash, Structural)]
pub enum Input {
    /// A button changed its state.
    Button(ButtonArgs),
    /// The mouse, a controller axis or a finger moved.
    Move,
    /// Text was entered.
    Text,
    /// The window was resized.
    Resize,
    /// The window gained or lost focus.
    Focus,
    /// The cursor entered or left the window.
    Cursor,
    /// A file is dragged over the window or dropped on it.
    FileDrag,
    /// The window was closed.
    Close,
}

/// A step of the event loop.
#[derive(Clone, Copy, Debug, PartialEq)]
pub enum Loop<S> {
    /// A frame is to be drawn.
    Render(RenderArgs<S>),
    /// A frame was drawn and shown.
    AfterRender,
    /// The state of the application is to be advanced.
    Update(UpdateArgs<S>),
    /// There is time for background work.
    Idle,
}

/// An event of a window.
#[derive(Clone, Copy, Debug, PartialEq)]
pub enum Event<S> {
    /// An input event.
    Input(Input),
    /// An event of the loop.
    Loop(Loop<S>),
    /// An event of the application's own making.
    Custom,
}

impl<S: Copy> Event<S> {
    /// The render arguments of a render event.
    pub open spec fn spec_render_args(&self) -> Option<RenderArgs<S>> {
        match *self {
            Event::Loop(Loop::Render(args)) => Some(args),
            _ => None,
        }
    }

    /// The update arguments of an update event.
    pub open spec fn spec_update_args(&self) -> Option<UpdateArgs<S>> {
        match *self {
            Event::Loop(Loop::Update(args)) => Some(args),
            _ => None,
        }
    }

    /// The button of an event that takes a button to the given state.
    pub open spec fn button_taken_to(&self, state: ButtonState) -> Option<Button> {
        match *self {
            Event::Input(Input::Button(args)) => if args.state == state {
                Some(args.button)
            } else {
                None
            },
            _ => None,
        }
    }

    /// The button of a press event.
    pub open spec fn spec_press_args(&self) -> Option<Button> {
        self.button_taken_to(ButtonState::Press)
    }

    /// The button of a release event.
    pub open spec fn spec_release_args(&self) -> Option<Button> {
        self.button_taken_to(ButtonState::Release)
    }

    /// Whether this is an input event.
    pub fn is_input(&self) -> (r: bool)
        ensures
            r == (*self is Input),
    {
        match self {
            Event::Input(_) => true,
            _ => false,
        }
    }

    /// Whether this is an event of the loop.
    pub fn is_loop(&self) -> (r: bool)
        ensures
            r == (*self is Loop),
    {
        match self {
            Event::Loop(_) => true,
            _ => false,
        }
    }

    /// The render arguments, if this is a render event.
    #[verifier::when_used_as_spec(spec_render_args)]
    pub fn render_args(&self) -> (r: Option<RenderArgs<S>>)
        ensures
            r == self.spec_render_args(),
    {
        match self {
            Event::Loop(Loop::Render(args)) => Some(*args),
            _ => None,
        }
    }

    /// The update arguments, if this is an update event.
    #[verifier::when_used_as_spec(spec_update_args)]
    pub fn update_args(&self) -> (r: Option<UpdateArgs<S>>)
        ensures
            r == self.spec_update_args(),
    {
        match self {
            Event::Loop(Loop::Update(args)) => Some(*args),
            _ => None,
        }
    }

    /// The button that was pressed, if this is a press event.
    #[verifier::when_used_as_spec(spec_press_args)]
    pub fn press_args(&self) -> (r: Option<Button>)
        ensures
            r == self.spec_press_args(),
    {
        match self {
            Event::Input(Input::Button(args)) => match args.state {
                ButtonState::Press => Some(args.button),
                ButtonState::Release => None,
            },
            _ => None,
        }
    }

    /// The button that was released, if this is a release event.
    #[verifier::when_used_as_spec(spec_release_args)]
    pub fn release_args(&self) -> (r: Option<Button>)
        ensures
            r == self.spec_release_args(),
    {
        match self {
            Event::Input(Input::Button(args)) => match args.state {
                ButtonState::Press => None,
                ButtonState::Release => Some(args.button),
            },
            _ => None,
        }
    }

    /// The key that was pressed, if this is the press of a keyboard key.
    pub fn keypress_args(&self) -> (r: Option<Button>)
        ensures
            r == keep_if_key(self.press_args()),
    {
        match self.press_args() {
            Some(button) => {
                if let Button::Keyboard(_) = button {
                    Some(button)
                } else {
                    None
                }
            },
            None => None,
        }
    }

    /// The key that was released, if this is the release of a keyboard key.
    pub fn keyrelease_args(&self) -> (r: Option<Button>)
        ensures
            r == keep_if_key(self.release_args()),
    {
        match self.release_args() {
            Some(button) => {
                if let Button::Keyboard(_) = button {
                    Some(button)
                } else {
                    None
                }
            },
            None => None,
        }
    }

    /// The mouse button that was pressed, if this is a mouse click.
    pub fn mousepress_args(&self) -> (r: Option<Button>)
        ensures
            r == keep_if_mouse(self.press_args()),
    {
        match self.press_args() {
            Some(button) => {
                if let Button::Mouse(_) = button {
                    Some(button)
                } else {
                    None
                }
            },
            None => None,
        }
    }

    /// The mouse button that was released, if this is the release of a mouse
    /// button.
    pub fn mouserelease_args(&self) -> (r: Option<Button>)
        ensures
            r == keep_if_mouse(self.release_args()),
    {
        match self.release_args() {
            Some(button) => {
                if let Button::Mouse(_) = button {
                    Some(button)
                } else {
                    None
                }
            },
            None => None,
        }
    }
}

/// The button, if there is one and it is a keyboard key.
pub open spec fn keep_if_key(button: Option<Button>) -> Option<Button> {
    match button {
        Some(Button::Keyboard(code)) => Some(Button::Keyboard(code)),
        _ => None,
    }
}

/// The button, if there is one and it is a mouse button.
pub open spec fn keep_if_mouse(button: Option<Button>) -> Option<Button> {
    match button {
        Some(Button::Mouse(number)) => Some(Button::Mouse(number)),
        _ => None,
    }
}

/// An event is of one kind only: of its render arguments, its update
/// arguments, the button it presses and the button it releases, at most one
/// is there. With a button it is an input event, with render or update
/// arguments an event of the loop.
pub proof fn lemma_event_is_of_one_kind<S: Copy>(e: Event<S>)
    ensures
        e.render_args() is Some ==> e is Loop && e.update_args() is None,
        e.render_args() is Some || e.update_args() is Some ==> e.press_args() is None
            && e.release_args() is None,
        e.update_args() is Some ==> e is Loop,
        e.press_args() is Some ==> e is Input && e.release_args() is None,
        e.release_args() is Some ==> e is Input,
{
}

/// Where `keep_if_key` or `keep_if_mouse` keeps a button, it is the button it
/// was given, and the other of the two keeps none.
pub proof fn lemma_kept_button_is_the_given(button: Option<Button>)
    ensures
        keep_if_key(button) is Some ==> keep_if_key(button) == button && keep_if_mouse(button)
            is None,
        keep_if_mouse(button) is Some ==> keep_if_mouse(button) == button && keep_if_key(button)
            is None,
{
}

/// How an event loop paces itself.
#[derive(Clone, Copy, Debug, PartialEq, Eq, Hash, Structural)]
pub struct EventSettings {
    /// The most frames drawn in a second.
    pub max_fps: u64,
    /// The number of updates in a second; none if it is zero.
    pub ups: u64,
    /// The number of updates the loop may lag behind before it skips them;
    /// if it is zero the loop always catches up.
    pub ups_reset: u64,
    /// Whether the loop swaps the display buffers itself.
    pub swap_buffers: bool,
    /// Whether the loop runs as fast as it can and ignores input.
    pub bench_mode: bool,
    /// Whether the loop renders only when there is input.
    pub lazy: bool,
}

/// Calls `EventSettings::new` of the `piston` crate and copies its fields.
/// Not proved, but taken from that crate: that the new settings are 60 frames
/// and 120 updates a second, a lag of 2 updates before skipping, buffers
/// swapped by the loop, no benchmark mode, not lazy.
#[verifier::external_body]
fn backend_event_settings() -> (r: EventSettings)
    ensures
        r == EventSettings::spec_new(),
{
    let s = piston::EventSettings::new();
    EventSettings {
        max_fps: s.max_fps,
        ups: s.ups,
        ups_reset: s.ups_reset,
        swap_buffers: s.swap_buffers,
        bench_mode: s.bench_mode,
        lazy: s.lazy,
    }
}

impl EventSettings {
    /// The settings of a new event loop: 60 frames and 120 updates a second,
    /// a lag of 2 updates before skipping, buffers swapped by the loop, no
    /// benchmark mode, not lazy.
    pub open spec fn spec_new() -> EventSettings {
        EventSettings {
            max_fps: 60,
            ups: 120,
            ups_reset: 2,
            swap_buffers: true,
            bench_mode: false,
            lazy: false,
        }
    }

    /// The settings of a new event loop.
    #[verifier::when_used_as_spec(spec_new)]
    pub fn new() -> (r: Self)
        ensures
            r == Self::spec_new(),
    {
        backend_event_settings()
    }

    /// The most frames drawn in a second.
    pub fn max_fps(&self) -> (r: u64)
        ensures
            r == self.max_fps,
    {
        self.max_fps
    }

    /// The number of updates in a second.
    pub fn ups(&self) -> (r: u64)
        ensures
            r == self.ups,
    {
        self.ups
    }

    /// The number of updates the loop may lag behind before it skips them.
    pub fn ups_reset(&self) -> (r: u64)
        ensures
            r == self.ups_reset,
    {
        self.ups_reset
    }

    /// Whether the loop swaps the display buffers itself.
    pub fn swap_buffers(&self) -> (r: bool)
        ensures
            r == self.swap_buffers,
    {
        self.swap_buffers
    }

    /// Whether the loop runs as fast as it can and ignores input.
    pub fn bench_mode(&self) -> (r: bool)
        ensures
            r == self.bench_mode,
    {
        self.bench_mode
    }

    /// Whether the loop renders only when there is input.
    pub fn lazy(&self) -> (r: bool)
        ensures
            r == self.lazy,
    {
        self.lazy
    }
}

} // verus!
