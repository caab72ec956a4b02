//! Window configuration and the startup sizing decisions.
//!
//! The platform shell creates the actual window; the engine decides here,
//! from the configured options and the monitor (when one is available),
//! what size and mode the window gets.

use vstd::prelude::*;

verus! {

/// A window extent in pixels.
#[derive(Debug, Clone)]
pub struct Size {
    pub width: u32,
    pub height: u32,
}

impl Size {
    /// A size from its two extents.
    pub fn from(width: u32, height: u32) -> (r: Self)
        ensures
            r.width == width && r.height == height,
    {
        Size { width, height }
    }
}

/// How the window relates to the screen.
#[derive(Debug, Clone, Copy)]
pub struct DisplayOptions {
    pub fit_screen: bool,
    pub fullscreen: bool,
}

/// Title and size the window is asked for.
#[derive(Debug, Clone)]
pub struct WindowOptions {
    pub title: String,
    pub size: Size,
}

impl Default for WindowOptions {
    /// An untitled window of 800 by 400 pixels.
    fn default() -> (r: Self)
        ensures
            r.title@ == Seq::<char>::empty(),
            r.size.width == 800 && r.size.height == 400,
    {
        WindowOptions { title: String::new(), size: Size::from(800, 400) }
    }
}

/// Everything the platform shell needs to create the window.
#[derive(Debug)]
pub struct WindowProperties {
    pub window_options: WindowOptions,
    pub display_options: Option<DisplayOptions>,
}

/// The width the window must get: the monitor's physical width when the
/// options ask to fit the screen, the configured width otherwise.
pub open spec fn chosen_width(props: WindowProperties, monitor: Option<Size>) -> u32 {
    match props.display_options {
        Some(d) => if d.fit_screen {
            monitor->Some_0.width
        } else {
            props.window_options.size.width
        },
        None => props.window_options.size.width,
    }
}

/// The height the window must get, chosen like the width.
pub open spec fn chosen_height(props: WindowProperties, monitor: Option<Size>) -> u32 {
    match props.display_options {
        Some(d) => if d.fit_screen {
            monitor->Some_0.height
        } else {
            props.window_options.size.height
        },
        None => props.window_options.size.height,
    }
}

/// Decides the window size at startup.  Fitting the screen without a
/// monitor to measure is a configuration error the engine treats as
/// fatal, so it is excluded here.
pub fn resolve_window_size(props: &WindowProperties, monitor: &Option<Size>) -> (r: Size)
    requires
        (props.display_options matches Some(d) && d.fit_screen) ==> *monitor is Some,
    ensures
        r.width == chosen_width(*props, *monitor),
        r.height == chosen_height(*props, *monitor),
{
    match &props.display_options {
        Some(d) => {
            if d.fit_screen {
                match monitor {
                    Some(m) => Size::from(m.width, m.height),
                    None => Size::from(
                        props.window_options.size.width,
                        props.window_options.size.height,
                    ),
                }
            } else {
                Size::from(props.window_options.size.width, props.window_options.size.height)
            }
        },
        None => Size::from(props.window_options.size.width, props.window_options.size.height),
    }
}

/// The screen mode the window is created in.
#[derive(Debug, Clone, Copy, PartialEq, Eq, Structural)]
pub enum WindowModeChoice {
    Windowed,
    Fullscreen,
}

/// Fullscreen is chosen only when a monitor is present and the options
/// ask for it; everything else is windowed.
pub open spec fn chosen_mode(display: Option<DisplayOptions>, has_monitor: bool) -> WindowModeChoice {
    if has_monitor && (display matches Some(d) && d.fullscreen) {
        WindowModeChoice::Fullscreen
    } else {
        WindowModeChoice::Windowed
    }
}

/// Decides the window mode at startup.
pub fn resolve_window_mode(display: &Option<DisplayOptions>, has_monitor: bool) -> (r:
    WindowModeChoice)
    ensures
        r == chosen_mode(*display, has_monitor),
{
    match display {
        Some(d) => {
            if has_monitor && d.fullscreen {
                WindowModeChoice::Fullscreen
            } else {
                WindowModeChoice::Windowed
            }
        },
        None => WindowModeChoice::Windowed,
    }
}

} // verus!
