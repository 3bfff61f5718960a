//! The logic of a small windowing and 2D drawing toolkit: buttons and events,
//! window and event loop settings, transformation matrices, and the state an
//! application keeps from one event to the next.
//!
//! The library decides and computes; opening windows, waiting for events and
//! drawing are its caller's part.

use vstd::prelude::*;
use std::collections::HashSet;
use crate::input::Button;
use crate::opengl::OpenGL;
use crate::window::events::{keep_if_key, Event, EventSettings, Viewport};
use crate::window::{WindowSettings, WindowSettingsView};

pub mod graphics;
pub mod input;
pub mod opengl;
pub mod window;

verus! {

broadcast use vstd::std_specs::hash::group_hash_axioms;

/// What the caller of [`Piston2dApp::tick`] is to do for the event it
/// handed in.
#[derive(Clone, Copy, Debug, PartialEq)]
pub struct Frame<S> {
    /// Where to draw, if the render handlers are to be called.
    pub render: Option<Viewport<S>>,
    /// Whether the update handlers are to be called.
    pub update: bool,
}

/// What an application keeps from one event to the next: the keys that are
/// held down, by key code, and the handlers to call when a frame is drawn and
/// when the state is advanced, in the order in which they were registered.
///
/// A handler is a value of any type `H`: the library stores it and hands it
/// back, and never calls it.
pub struct Piston2dApp<H> {
    /// The codes of the keys that are held down.
    pub keys: HashSet<u32>,
    /// The handlers to call for a render event.
    pub render_handlers: Vec<H>,
    /// The handlers to call for an update event.
    pub update_handlers: Vec<H>,
}

/// The keys held down after an event, given those held down before it: the
/// press of a key adds it, the release of a key removes it, and nothing else
/// changes them.
pub open spec fn keys_after<S: Copy>(keys: Set<u32>, e: Event<S>) -> Set<u32> {
    match e.press_args() {
        Some(Button::Keyboard(code)) => keys.insert(code),
        _ => match e.release_args() {
            Some(Button::Keyboard(code)) => keys.remove(code),
            _ => keys,
        },
    }
}

impl<H> Piston2dApp<H> {
    /// An application with no key held down and no handler registered.
    pub fn new() -> (app: Self)
        ensures
            app.keys@ == Set::<u32>::empty(),
            app.render_handlers@ == Seq::<H>::empty(),
            app.update_handlers@ == Seq::<H>::empty(),
    {
        Piston2dApp { keys: HashSet::new(), render_handlers: Vec::new(), update_handlers: Vec::new() }
    }

    /// Takes the next event of the loop. A render event asks the caller to
    /// call the render handlers, drawing to the viewport that fills the
    /// rendered area; an update event asks for the update handlers. The press
    /// of a key adds it to the keys held down and its release removes it. The
    /// handlers stay as they are.
    pub fn tick<S: Copy>(&mut self, e: &Event<S>) -> (frame: Frame<S>)
        ensures
            frame.render == match e.render_args() {
                Some(args) => Some(args.viewport()),
                None => None,
            },
            frame.update == (e.update_args() is Some),
            final(self).keys@ == keys_after(old(self).keys@, *e),
            final(self).render_handlers@ == old(self).render_handlers@,
            final(self).update_handlers@ == old(self).update_handlers@,
    {
        let render = match e.render_args() {
            Some(args) => Some(args.viewport()),
            None => None,
        };
        let update = match e.update_args() {
            Some(_) => true,
            None => false,
        };
        if let Some(Button::Keyboard(code)) = e.press_args() {
            self.keys.insert(code);
        }
        if let Some(Button::Keyboard(code)) = e.release_args() {
            self.keys.remove(&code);
        }
        Frame { render, update }
    }

    /// Registers a handler for render events, behind those registered before,
    /// if it can be called, and drops it otherwise.
    pub fn render(&mut self, handler: H, callable: bool)
        ensures
            final(self).render_handlers@ == if callable {
                old(self).render_handlers@.push(handler)
            } else {
                old(self).render_handlers@
            },
            final(self).update_handlers@ == old(self).update_handlers@,
            final(self).keys@ == old(self).keys@,
    {
        if callable {
            self.render_handlers.push(handler);
        }
    }

    /// Registers a handler for update events, behind those registered before,
    /// if it can be called, and drops it otherwise.
    pub fn update(&mut self, handler: H, callable: bool)
        ensures
            final(self).update_handlers@ == if callable {
                old(self).update_handlers@.push(handler)
            } else {
                old(self).update_handlers@
            },
            final(self).render_handlers@ == old(self).render_handlers@,
            final(self).keys@ == old(self).keys@,
    {
        if callable {
            self.update_handlers.push(handler);
        }
    }
}

/// Releasing a key after pressing it leaves the keys that were held down
/// before, without that key.
pub proof fn lemma_release_undoes_press<S: Copy>(
    keys: Set<u32>,
    press: Event<S>,
    release: Event<S>,
    code: u32,
)
    requires
        press.press_args() == Some(Button::Keyboard(code)),
        release.release_args() == Some(Button::Keyboard(code)),
    ensures
        keys_after(keys_after(keys, press), release) == keys.remove(code),
{
}

/// Only the press and the release of a key change the keys held down.
pub proof fn lemma_other_events_keep_keys<S: Copy>(keys: Set<u32>, e: Event<S>)
    requires
        keep_if_key(e.press_args()) is None,
        keep_if_key(e.release_args()) is None,
    ensures
        keys_after(keys, e) == keys,
{
}

/// What an application starts from: what its window, its drawing backend and
/// its event loop are made with, and the state it keeps.
pub struct Init<H> {
    /// The settings of the window.
    pub settings: WindowSettings,
    /// The version of OpenGL for the window and the drawing backend.
    pub opengl: OpenGL,
    /// The settings of the event loop.
    pub events: EventSettings,
    /// The state of the application.
    pub app: Piston2dApp<H>,
}

/// Sets an application up: a decorated window with the given title and size
/// that closes on `Esc` and has the defaults of a new window otherwise,
/// OpenGL 3.2, an event loop with the settings of a new one, no key held down
/// and no handler registered.
pub fn init<H>(title: &str, dimensions: [u32; 2]) -> (start: Init<H>)
    ensures
        start.settings@ == (WindowSettingsView {
            decorated: true,
            exit_on_esc: true,
            ..WindowSettingsView::new(title@, dimensions)
        }),
        start.opengl == OpenGL::V3_2,
        start.events == EventSettings::new(),
        start.app.keys@ == Set::<u32>::empty(),
        start.app.render_handlers@ == Seq::<H>::empty(),
        start.app.update_handlers@ == Seq::<H>::empty(),
{
    let mut settings = WindowSettings::new(title.to_owned(), dimensions);
    settings.set_decorated(true);
    settings.set_exit_on_esc(true);
    Init { settings, opengl: OpenGL::V3_2, events: EventSettings::new(), app: Piston2dApp::new() }
}

} // verus!
