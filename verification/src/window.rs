//! Window identities and the settings a window is opened with.

use vstd::prelude::*;

verus! {

/// The identity of one top-level window. The shell hands out a new identity
/// for every window it asks the host to open, and never hands one out twice.
#[derive(Clone, Copy, Debug, PartialEq, Eq, Structural)]
pub struct WindowHandle(pub u64);

/// A point in time, in milliseconds since an origin of the host's choosing.
pub type Timestamp = u64;

/// The z-order band a window is kept in.
#[derive(Clone, Copy, Debug, PartialEq, Eq, Structural)]
pub enum WindowLevel {
    Normal,
    AlwaysOnBottom,
    AlwaysOnTop,
}

/// Where a window is first placed, in whole pixels.
#[derive(Clone, Copy, Debug, PartialEq, Eq, Structural)]
pub enum WindowPosition {
    Default,
    Centered,
    Specific(u32, u32),
}

/// The size of a monitor or of a new window, in whole pixels.
#[derive(Clone, Copy, Debug, PartialEq, Eq, Structural)]
pub struct Size {
    pub width: u32,
    pub height: u32,
}

/// How many [`Extent`] and [`Point`] units make one pixel.
pub const UNITS_PER_PIXEL: u64 = 2000;

/// The size a window is resized to, in units of 1/2000 of a pixel: every
/// length of the shell is a whole multiple of 1/2000 of the monitor's width.
#[derive(Clone, Copy, Debug, PartialEq, Eq, Structural)]
pub struct Extent {
    pub width: u64,
    pub height: u64,
}

/// The place a window is moved to, in units of 1/2000 of a pixel.
#[derive(Clone, Copy, Debug, PartialEq, Eq, Structural)]
pub struct Point {
    pub x: u64,
    pub y: u64,
}

/// What the host is told when it is asked to open a window. `size` is `None`
/// where the host's default size is wanted.
#[derive(Clone, Copy, Debug, PartialEq, Eq, Structural)]
pub struct WindowSettings {
    pub decorations: bool,
    pub resizable: bool,
    pub transparent: bool,
    pub closeable: bool,
    pub minimizable: bool,
    pub fullscreen: bool,
    pub level: WindowLevel,
    pub position: WindowPosition,
    pub size: Option<Size>,
}

/// The five windows of the shell.
#[derive(Clone, Copy, Debug, PartialEq, Eq, Structural)]
pub enum WindowKind {
    Taskbar,
    Desktop,
    StartMenu,
    PanelMenu,
    PowerWindow,
}

impl WindowSettings {
    /// The settings every shell window shares: no decorations, fixed size, no
    /// close or minimize button.
    pub open spec fn spec_bare() -> WindowSettings {
        WindowSettings {
            decorations: false,
            resizable: false,
            transparent: true,
            closeable: false,
            minimizable: false,
            fullscreen: false,
            level: WindowLevel::Normal,
            position: WindowPosition::Default,
            size: None,
        }
    }

    /// The settings of the window of one kind.
    pub open spec fn spec_for_kind(kind: WindowKind) -> WindowSettings {
        let bare = Self::spec_bare();
        match kind {
            WindowKind::Taskbar => WindowSettings {
                position: WindowPosition::Specific(0, 0),
                size: Some(Size { width: 0, height: 0 }),
                ..bare
            },
            WindowKind::Desktop => WindowSettings {
                transparent: false,
                fullscreen: true,
                level: WindowLevel::AlwaysOnBottom,
                ..bare
            },
            WindowKind::StartMenu => WindowSettings {
                level: WindowLevel::AlwaysOnTop,
                position: WindowPosition::Specific(2, 37),
                size: Some(Size { width: 400, height: 600 }),
                ..bare
            },
            WindowKind::PanelMenu => WindowSettings {
                level: WindowLevel::AlwaysOnTop,
                position: WindowPosition::Specific(1118, 37),
                size: Some(Size { width: 400, height: 600 }),
                ..bare
            },
            WindowKind::PowerWindow => WindowSettings {
                level: WindowLevel::AlwaysOnTop,
                position: WindowPosition::Centered,
                size: Some(Size { width: 500, height: 300 }),
                ..bare
            },
        }
    }

    #[verifier::when_used_as_spec(spec_for_kind)]
    pub fn for_kind(kind: WindowKind) -> (settings: WindowSettings)
        ensures
            settings == Self::spec_for_kind(kind),
    {
        let bare = WindowSettings {
            decorations: false,
            resizable: false,
            transparent: true,
            closeable: false,
            minimizable: false,
            fullscreen: false,
            level: WindowLevel::Normal,
            position: WindowPosition::Default,
            size: None,
        };
        match kind {
            WindowKind::Taskbar => WindowSettings {
                position: WindowPosition::Specific(0, 0),
                size: Some(Size { width: 0, height: 0 }),
                ..bare
            },
            WindowKind::Desktop => WindowSettings {
                transparent: false,
                fullscreen: true,
                level: WindowLevel::AlwaysOnBottom,
                ..bare
            },
            WindowKind::StartMenu => WindowSettings {
                level: WindowLevel::AlwaysOnTop,
                position: WindowPosition::Specific(2, 37),
                size: Some(Size { width: 400, height: 600 }),
                ..bare
            },
            WindowKind::PanelMenu => WindowSettings {
                level: WindowLevel::AlwaysOnTop,
                position: WindowPosition::Specific(1118, 37),
                size: Some(Size { width: 400, height: 600 }),
                ..bare
            },
            WindowKind::PowerWindow => WindowSettings {
                level: WindowLevel::AlwaysOnTop,
                position: WindowPosition::Centered,
                size: Some(Size { width: 500, height: 300 }),
                ..bare
            },
        }
    }
}

/// The geometry a window of the shell takes once the monitor's size is known:
/// what it is resized to and where it is moved, both as multiples of 1/2000
/// of the monitor's width.
#[derive(Clone, Copy, Debug, PartialEq, Eq, Structural)]
pub struct Layout {
    pub size: Extent,
    pub position: Point,
}

/// The layout of the taskbar: the monitor's width less a margin of 4/2000 on
/// either side, 42/2000 high, one margin in from the top left corner.
pub open spec fn spec_taskbar_layout(monitor: Size) -> Layout {
    Layout {
        size: Extent { width: (monitor.width * 1992) as u64, height: (monitor.width * 42) as u64 },
        position: Point { x: (monitor.width * 4) as u64, y: (monitor.width * 4) as u64 },
    }
}

/// The layout of the start menu: 600/2000 by 800/2000, below the taskbar at
/// the left margin.
pub open spec fn spec_start_menu_layout(monitor: Size) -> Layout {
    Layout {
        size: Extent { width: (monitor.width * 600) as u64, height: (monitor.width * 800) as u64 },
        position: Point { x: (monitor.width * 4) as u64, y: (monitor.width * 50) as u64 },
    }
}

/// The layout of the panel menu: 600/2000 by 400/2000, below the taskbar,
/// its right edge one margin in from the monitor's right edge.
pub open spec fn spec_panel_menu_layout(monitor: Size) -> Layout {
    Layout {
        size: Extent { width: (monitor.width * 600) as u64, height: (monitor.width * 400) as u64 },
        position: Point { x: (monitor.width * 1396) as u64, y: (monitor.width * 50) as u64 },
    }
}

fn scaled(width: u32, factor: u64) -> (units: u64)
    requires
        factor <= 2000,
    ensures
        units == width * factor,
{
    assert(width * factor <= 0xffff_ffff * 2000) by (nonlinear_arith)
        requires
            width <= 0xffff_ffff,
            factor <= 2000,
    ;
    let wide: u64 = width as u64;
    wide * factor
}

#[verifier::when_used_as_spec(spec_taskbar_layout)]
pub fn taskbar_layout(monitor: Size) -> (layout: Layout)
    ensures
        layout == spec_taskbar_layout(monitor),
{
    Layout {
        size: Extent { width: scaled(monitor.width, 1992), height: scaled(monitor.width, 42) },
        position: Point { x: scaled(monitor.width, 4), y: scaled(monitor.width, 4) },
    }
}

#[verifier::when_used_as_spec(spec_start_menu_layout)]
pub fn start_menu_layout(monitor: Size) -> (layout: Layout)
    ensures
        layout == spec_start_menu_layout(monitor),
{
    Layout {
        size: Extent { width: scaled(monitor.width, 600), height: scaled(monitor.width, 800) },
        position: Point { x: scaled(monitor.width, 4), y: scaled(monitor.width, 50) },
    }
}

#[verifier::when_used_as_spec(spec_panel_menu_layout)]
pub fn panel_menu_layout(monitor: Size) -> (layout: Layout)
    ensures
        layout == spec_panel_menu_layout(monitor),
{
    Layout {
        size: Extent { width: scaled(monitor.width, 600), height: scaled(monitor.width, 400) },
        position: Point { x: scaled(monitor.width, 1396), y: scaled(monitor.width, 50) },
    }
}

} // verus!
