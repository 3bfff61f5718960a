//! Windows: the settings a window is built from, and the events it reports.

use vstd::prelude::*;

pub mod events;

verus! {

/// What a window is built from.
#[derive(Clone, Debug, PartialEq, Eq)]
pub struct WindowSettings {
    title: String,
    size: [u32; 2],
    samples: u8,
    fullscreen: bool,
    exit_on_esc: bool,
    automatic_close: bool,
    vsync: bool,
    srgb: bool,
    resizable: bool,
    decorated: bool,
    controllers: bool,
    transparent: bool,
}

/// The settings of a window as plain data.
pub struct WindowSettingsView {
    /// The title of the window.
    pub title: Seq<char>,
    /// The width and height of the window.
    pub size: [u32; 2],
    /// The number of samples for anti-aliasing.
    pub samples: u8,
    /// Whether the window fills the screen.
    pub fullscreen: bool,
    /// Whether the window closes when `Esc` is pressed.
    pub exit_on_esc: bool,
    /// Whether the window closes when its close button or `Alt+F4` is
    /// pressed.
    pub automatic_close: bool,
    /// Whether drawing waits for the screen's refresh.
    pub vsync: bool,
    /// Whether colors are converted in hardware.
    pub srgb: bool,
    /// Whether the window can be resized.
    pub resizable: bool,
    /// Whether the window has a border and a title bar.
    pub decorated: bool,
    /// Whether the window listens to controllers.
    pub controllers: bool,
    /// Whether the window is transparent.
    pub transparent: bool,
}

impl WindowSettingsView {
    /// The settings of a new window with the given title and size: no
    /// anti-aliasing, not fullscreen, `Esc` does not close it but the close
    /// button does, no vsync, hardware color conversion, resizable, decorated,
    /// listening to controllers, opaque.
    pub open spec fn new(title: Seq<char>, size: [u32; 2]) -> WindowSettingsView {
        WindowSettingsView {
            title,
            size,
            samples: 0,
            fullscreen: false,
            exit_on_esc: false,
            automatic_close: true,
            vsync: false,
            srgb: true,
            resizable: true,
            decorated: true,
            controllers: true,
            transparent: false,
        }
    }
}

impl View for WindowSettings {
    type V = WindowSettingsView;

    closed spec fn view(&self) -> WindowSettingsView {
        WindowSettingsView {
            title: self.title@,
            size: self.size,
            samples: self.samples,
            fullscreen: self.fullscreen,
            exit_on_esc: self.exit_on_esc,
            automatic_close: self.automatic_close,
            vsync: self.vsync,
            srgb: self.srgb,
            resizable: self.resizable,
            decorated: self.decorated,
            controllers: self.controllers,
            transparent: self.transparent,
        }
    }
}

/// Calls `WindowSettings::new` of the `piston` crate and reads the result
/// back through its getters. Not proved, but taken from that crate: that the
/// new settings hold the title and the size they were made with (a size of
/// whole numbers below `2^32` comes back as it went in) and, for everything
/// else, the defaults that `WindowSettingsView::new` lists.
#[verifier::external_body]
fn backend_new(title: String, size: [u32; 2]) -> (r: WindowSettings)
    ensures
        r@ == WindowSettingsView::new(title@, size),
{
    let s = piston::WindowSettings::new(title, size);
    WindowSettings {
        title: s.get_title(),
        size: s.get_size().into(),
        samples: s.get_samples(),
        fullscreen: s.get_fullscreen(),
        exit_on_esc: s.get_exit_on_esc(),
        automatic_close: s.get_automatic_close(),
        vsync: s.get_vsync(),
        srgb: s.get_srgb(),
        resizable: s.get_resizable(),
        decorated: s.get_decorated(),
        controllers: s.get_controllers(),
        transparent: s.get_transparent(),
    }
}

impl WindowSettings {
    /// The settings of a window with the given title and size, and the
    /// defaults for everything else.
    pub fn new(title: String, size: [u32; 2]) -> (r: Self)
        ensures
            r@ == WindowSettingsView::new(title@, size),
    {
        backend_new(title, size)
    }

    /// The title of the window.
    pub fn get_title(&self) -> (r: String)
        ensures
            r@ == self@.title,
    {
        self.title.clone()
    }

    /// Sets the title of the window.
    pub fn set_title(&mut self, title: String)
        ensures
            final(self)@ == (WindowSettingsView { title: title@, ..old(self)@ }),
    {
        self.title = title;
    }

    /// The width and height of the window.
    pub fn get_size(&self) -> (r: [u32; 2])
        ensures
            r == self@.size,
    {
        self.size
    }

    /// Sets the width and height of the window.
    pub fn set_size(&mut self, value: [u32; 2])
        ensures
            final(self)@ == (WindowSettingsView { size: value, ..old(self)@ }),
    {
        self.size = value;
    }

    /// Whether the window fills the screen.
    pub fn get_fullscreen(&self) -> (r: bool)
        ensures
            r == self@.fullscreen,
    {
        self.fullscreen
    }

    /// Sets whether the window fills the screen.
    pub fn set_fullscreen(&mut self, value: bool)
        ensures
            final(self)@ == (WindowSettingsView { fullscreen: value, ..old(self)@ }),
    {
        self.fullscreen = value;
    }

    /// Whether the window closes when `Esc` is pressed.
    pub fn get_exit_on_esc(&self) -> (r: bool)
        ensures
            r == self@.exit_on_esc,
    {
        self.exit_on_esc
    }

    /// Sets whether the window closes when `Esc` is pressed.
    pub fn set_exit_on_esc(&mut self, value: bool)
        ensures
            final(self)@ == (WindowSettingsView { exit_on_esc: value, ..old(self)@ }),
    {
        self.exit_on_esc = value;
    }

    /// Whether the window closes when its close button or `Alt+F4` is
    /// pressed.
    pub fn get_automatic_close(&self) -> (r: bool)
        ensures
            r == self@.automatic_close,
    {
        self.automatic_close
    }

    /// Sets whether the window closes when its close button or `Alt+F4` is
    /// pressed.
    pub fn set_automatic_close(&mut self, value: bool)
        ensures
            final(self)@ == (WindowSettingsView { automatic_close: value, ..old(self)@ }),
    {
        self.automatic_close = value;
    }

    /// The number of samples for anti-aliasing.
    pub fn get_samples(&self) -> (r: u8)
        ensures
            r == self@.samples,
    {
        self.samples
    }

    /// Sets the number of samples for anti-aliasing.
    pub fn set_samples(&mut self, value: u8)
        ensures
            final(self)@ == (WindowSettingsView { samples: value, ..old(self)@ }),
    {
        self.samples = value;
    }

    /// Whether drawing waits for the screen's refresh.
    pub fn get_vsync(&self) -> (r: bool)
        ensures
            r == self@.vsync,
    {
        self.vsync
    }

    /// Sets whether drawing waits for the screen's refresh.
    pub fn set_vsync(&mut self, value: bool)
        ensures
            final(self)@ == (WindowSettingsView { vsync: value, ..old(self)@ }),
    {
        self.vsync = value;
    }

    /// Whether colors are converted in hardware.
    pub fn get_srgb(&self) -> (r: bool)
        ensures
            r == self@.srgb,
    {
        self.srgb
    }

    /// Sets whether colors are converted in hardware.
    pub fn set_srgb(&mut self, value: bool)
        ensures
            final(self)@ == (WindowSettingsView { srgb: value, ..old(self)@ }),
    {
        self.srgb = value;
    }

    /// Whether the window can be resized.
    pub fn get_resizable(&self) -> (r: bool)
        ensures
            r == self@.resizable,
    {
        self.resizable
    }

    /// Sets whether the window can be resized.
    pub fn set_resizable(&mut self, value: bool)
        ensures
            final(self)@ == (WindowSettingsView { resizable: value, ..old(self)@ }),
    {
        self.resizable = value;
    }

    /// Whether the window has a border and a title bar.
    pub fn get_decorated(&self) -> (r: bool)
        ensures
            r == self@.decorated,
    {
        self.decorated
    }

    /// Sets whether the window has a border and a title bar.
    pub fn set_decorated(&mut self, value: bool)
        ensures
            final(self)@ == (WindowSettingsView { decorated: value, ..old(self)@ }),
    {
        self.decorated = value;
    }

    /// Whether the window listens to controllers.
    pub fn get_controllers(&self) -> (r: bool)
        ensures
            r == self@.controllers,
    {
        self.controllers
    }

    /// Sets whether the window listens to controllers.
    pub fn set_controllers(&mut self, value: bool)
        ensures
            final(self)@ == (WindowSettingsView { controllers: value, ..old(self)@ }),
    {
        self.controllers = value;
    }

    /// Whether the window is transparent.
    pub fn get_transparent(&self) -> (r: bool)
        ensures
            r == self@.transparent,
    {
        self.transparent
    }

    /// Sets whether the window is transparent.
    pub fn set_transparent(&mut self, value: bool)
        ensures
            final(self)@ == (WindowSettingsView { transparent: value, ..old(self)@ }),
    {
        self.transparent = value;
    }
}

} // verus!
