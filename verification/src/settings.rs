//! Persisted display settings and the window geometry derived from
//! them.
//!
//! Settings are loaded at startup by the surrounding application and
//! applied to the window: the base canvas is scaled by an integer
//! factor, and the window is centred on either a chosen monitor or the
//! primary one.

use vstd::prelude::*;

verus! {

/// Width of the unscaled canvas, in pixels.
pub const BASE_WIDTH: u32 = 640;

/// Height of the unscaled canvas, in pixels.
pub const BASE_HEIGHT: u32 = 360;

/// The integer factor the base canvas is multiplied by.
#[derive(Clone, Copy, Debug, PartialEq, Eq, Structural)]
pub enum ScaleFactor {
    Large,
    Small,
}

/// A window size and the scale it was derived with.
#[derive(Clone, Copy, Debug, PartialEq, Eq, Structural)]
pub struct Resolution {
    pub width: u32,
    pub height: u32,
    pub scale: ScaleFactor,
}

/// The settings blob persisted between runs.
#[derive(Clone, Copy, Debug, PartialEq)]
pub struct Settings {
    pub resolution: Resolution,
    pub monitor: Option<usize>,
}

/// Which monitor the window is centred on.
#[derive(Clone, Copy, Debug, PartialEq)]
pub enum MonitorChoice {
    /// The monitor at this index.
    Index(usize),
    /// The primary monitor, when none was chosen.
    Primary,
}

impl ScaleFactor {
    /// The multiplier this factor stands for.
    pub fn scale(&self) -> (s: u32)
        ensures
            s == match *self {
                ScaleFactor::Large => 4int,
                ScaleFactor::Small => 3int,
            },
    {
        match self {
            ScaleFactor::Large => 4,
            ScaleFactor::Small => 3,
        }
    }
}

impl Default for ScaleFactor {
    fn default() -> (s: Self)
        ensures
            s == ScaleFactor::Small,
    {
        ScaleFactor::Small
    }
}

impl Default for Resolution {
    fn default() -> (r: Self)
        ensures
            r == (Resolution { width: 0u32, height: 0u32, scale: ScaleFactor::Small }),
    {
        Resolution { width: 0, height: 0, scale: ScaleFactor::default() }
    }
}

impl Default for Settings {
    fn default() -> (s: Self)
        ensures
            s == (Settings {
                resolution: Resolution { width: 0u32, height: 0u32, scale: ScaleFactor::Small },
                monitor: None::<usize>,
            }),
    {
        Settings { resolution: Resolution::default(), monitor: None }
    }
}

impl Settings {
    /// The window size these settings call for: the base canvas
    /// multiplied by the chosen scale.
    pub fn window_size(&self) -> (r: (u32, u32))
        ensures
            r.0 == BASE_WIDTH * match self.resolution.scale {
                ScaleFactor::Large => 4int,
                ScaleFactor::Small => 3int,
            },
            r.1 == BASE_HEIGHT * match self.resolution.scale {
                ScaleFactor::Large => 4int,
                ScaleFactor::Small => 3int,
            },
    {
        let s: u32 = self.resolution.scale.scale();
        (BASE_WIDTH * s, BASE_HEIGHT * s)
    }

    /// The monitor the window is centred on: the chosen index, or the
    /// primary monitor when none was persisted.
    pub fn monitor_choice(&self) -> (r: MonitorChoice)
        ensures
            r == match self.monitor {
                Some(u) => MonitorChoice::Index(u),
                None => MonitorChoice::Primary,
            },
    {
        match self.monitor {
            Some(u) => MonitorChoice::Index(u),
            None => MonitorChoice::Primary,
        }
    }
}

} // verus!
