//! Window geometry on the side of the host UI: where the overlay and the
//! control bar go.

use vstd::prelude::*;

verus! {

/// Width of the control bar, in pixels.
pub const CONTROL_BAR_WIDTH: u32 = 450;

/// Height of the control bar, in pixels.
pub const CONTROL_BAR_HEIGHT: u32 = 80;

/// Distance of the control bar from the top of the screen, in pixels.
pub const CONTROL_BAR_TOP_MARGIN: i32 = 40;

/// The monitor that a window is on.
#[derive(Debug, Clone, Copy, PartialEq, Eq, Structural)]
pub struct WindowMonitorInfo {
    pub x: i32,
    pub y: i32,
    pub width: u32,
    pub height: u32,
}

/// Where the overlay window goes.
#[derive(Debug, Clone, Copy, PartialEq, Eq, Structural)]
pub struct OverlayBounds {
    pub x: i32,
    pub y: i32,
    pub width: u32,
    pub height: u32,
}

/// The bounds of one screen.
#[derive(Debug, Clone, Copy, PartialEq, Eq, Structural)]
pub struct ScreenBounds {
    pub x: i32,
    pub y: i32,
    pub width: u32,
    pub height: u32,
    pub is_primary: bool,
}

/// A position of the control bar that the user chose.
#[derive(Debug, Clone, Copy, PartialEq, Eq, Structural)]
pub struct ControlBarPosition {
    pub x: i32,
    pub y: i32,
}

/// Size and position of a window.
#[derive(Debug, Clone, Copy, PartialEq, Eq, Structural)]
pub struct WindowGeometry {
    pub width: u32,
    pub height: u32,
    pub x: i32,
    pub y: i32,
}

/// Whether the control bar at `position` shows on `screen`, be it in part.
pub open spec fn bar_touches(position: ControlBarPosition, screen: ScreenBounds) -> bool {
    &&& position.x < screen.x + screen.width
    &&& position.x + CONTROL_BAR_WIDTH > screen.x
    &&& position.y < screen.y + screen.height
    &&& position.y + CONTROL_BAR_HEIGHT > screen.y
}

/// Whether the control bar at `position` shows on one of the screens.
pub open spec fn bar_is_visible(position: ControlBarPosition, screens: Seq<ScreenBounds>) -> bool {
    exists|i: int| 0 <= i < screens.len() && bar_touches(position, #[trigger] screens[i])
}

/// Whether the control bar at `position` shows on one of the screens.
pub fn is_position_on_screen(position: ControlBarPosition, screens: &Vec<ScreenBounds>) -> (visible:
    bool)
    ensures
        visible == bar_is_visible(position, screens@),
{
    let mut i: usize = 0;
    while i < screens.len()
        invariant
            i <= screens.len(),
            forall|k: int| 0 <= k < i ==> !bar_touches(position, #[trigger] screens[k]),
        decreases screens.len() - i,
    {
        let screen = screens[i];
        let bar_right: i64 = position.x as i64 + CONTROL_BAR_WIDTH as i64;
        let bar_bottom: i64 = position.y as i64 + CONTROL_BAR_HEIGHT as i64;
        let screen_right: i64 = screen.x as i64 + screen.width as i64;
        let screen_bottom: i64 = screen.y as i64 + screen.height as i64;
        if (position.x as i64) < screen_right && bar_right > screen.x as i64 && (position.y as i64)
            < screen_bottom && bar_bottom > screen.y as i64 {
            return true;
        }
        i = i + 1;
    }
    false
}

/// Where the control bar goes by default: centred at the top of the primary
/// monitor, a margin below its edge.
pub open spec fn default_position(monitor: WindowMonitorInfo) -> (int, int) {
    let spare = monitor.width - CONTROL_BAR_WIDTH;
    // Half of the spare width, rounded towards zero.
    let half = if spare >= 0 {
        spare / 2
    } else {
        -((-spare) / 2)
    };
    (monitor.x + half, monitor.y + CONTROL_BAR_TOP_MARGIN)
}

/// Where the control bar goes by default; `None` where that place is beyond
/// what window coordinates can say.
pub fn calculate_default_position(monitor: &WindowMonitorInfo) -> (position: Option<(i32, i32)>)
    ensures
        match position {
            Some((x, y)) => (x as int, y as int) == default_position(*monitor),
            None => {
                let (x, y) = default_position(*monitor);
                x < i32::MIN || x > i32::MAX || y < i32::MIN || y > i32::MAX
            },
        },
{
    let spare: i64 = monitor.width as i64 - CONTROL_BAR_WIDTH as i64;
    let half: i64 = if spare >= 0 {
        spare / 2
    } else {
        -((-spare) / 2)
    };
    let x: i64 = monitor.x as i64 + half;
    let y: i64 = monitor.y as i64 + CONTROL_BAR_TOP_MARGIN as i64;
    if x < i32::MIN as i64 || x > i32::MAX as i64 || y < i32::MIN as i64 || y > i32::MAX as i64 {
        None
    } else {
        Some((x as i32, y as i32))
    }
}

/// Where the control bar goes: where the user left it, as long as that
/// still shows on a screen; else the default place.
pub fn control_bar_position(
    saved: Option<ControlBarPosition>,
    screens: &Vec<ScreenBounds>,
    primary: &WindowMonitorInfo,
) -> (position: Option<(i32, i32)>)
    ensures
        match saved {
            Some(p) if bar_is_visible(p, screens@) => position == Some((p.x, p.y)),
            _ => match position {
                Some((x, y)) => (x as int, y as int) == default_position(*primary),
                None => {
                    let (x, y) = default_position(*primary);
                    x < i32::MIN || x > i32::MAX || y < i32::MIN || y > i32::MAX
                },
            },
        },
{
    match saved {
        Some(p) => {
            if is_position_on_screen(p, screens) {
                Some((p.x, p.y))
            } else {
                calculate_default_position(primary)
            }
        },
        None => calculate_default_position(primary),
    }
}

/// Why the window could not change between its own shape and the control
/// bar.
#[derive(Debug, Clone, Copy, PartialEq, Eq, Structural)]
pub enum TransformError {
    AlreadyTransformed,
    NotTransformed,
}

/// The shape of the main window before it became the control bar.
pub struct TransformModeState {
    saved: Option<WindowGeometry>,
}

impl View for TransformModeState {
    type V = Option<WindowGeometry>;

    closed spec fn view(&self) -> Option<WindowGeometry> {
        self.saved
    }
}

impl TransformModeState {
    /// The window in its own shape.
    pub fn new() -> (state: Self)
        ensures
            state@ is None,
    {
        TransformModeState { saved: None }
    }

    /// Whether the window is the control bar now.
    pub fn is_transformed(&self) -> (b: bool)
        ensures
            b == (self@ is Some),
    {
        self.saved.is_some()
    }

    /// Remembers the shape of the window as it becomes the control bar.
    pub fn transform(&mut self, current: WindowGeometry) -> (done: Result<(), TransformError>)
        ensures
            match old(self)@ {
                Some(_) => done == Err::<(), TransformError>(TransformError::AlreadyTransformed)
                    && final(self)@ == old(self)@,
                None => done is Ok && final(self)@ == Some(current),
            },
    {
        if self.saved.is_some() {
            Err(TransformError::AlreadyTransformed)
        } else {
            self.saved = Some(current);
            Ok(())
        }
    }

    /// Hands back the shape that the window had, as it leaves the control
    /// bar.
    pub fn restore(&mut self) -> (shape: Result<WindowGeometry, TransformError>)
        ensures
            final(self)@ is None,
            match old(self)@ {
                Some(geometry) => shape == Ok::<WindowGeometry, TransformError>(geometry),
                None => shape == Err::<WindowGeometry, TransformError>(
                    TransformError::NotTransformed,
                ),
            },
    {
        match self.saved {
            Some(geometry) => {
                self.saved = None;
                Ok(geometry)
            },
            None => Err(TransformError::NotTransformed),
        }
    }
}

impl Default for TransformModeState {
    fn default() -> (state: Self)
        ensures
            state@ is None,
    {
        TransformModeState::new()
    }
}

} // verus!
