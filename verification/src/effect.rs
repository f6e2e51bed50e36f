//! What a controller asks the host to do. A controller never acts on the
//! windowing host or on a device itself: it returns a batch of effects, in
//! the order in which they are to be carried out.

use vstd::prelude::*;
use crate::power::PowerOptions;
use crate::start_menu::{StartMenuSettings, StartMenuSettingsView};
use crate::tasks::{WindowInfo, WindowInfoView};
use crate::window::{Extent, Point, WindowHandle, WindowKind, WindowSettings};

verus! {

#[derive(Clone, Debug)]
pub enum Effect {
    /// Open a window with these settings and know it by `handle`. The host
    /// answers with `WindowOpened(handle)` once the window is there.
    OpenWindow { handle: WindowHandle, kind: WindowKind, settings: WindowSettings },
    /// Close the window. The host answers with `WindowClosed`.
    CloseWindow(WindowHandle),
    Resize(WindowHandle, Extent),
    MoveTo(WindowHandle, Point),
    /// Ask for the size of the monitor the window is on. The host answers
    /// with the `Resize` message of the window's kind.
    QueryMonitorSize(WindowHandle, WindowKind),
    /// Keep the window from taking the focus when it is clicked.
    SetNoActivate(WindowHandle),
    /// Put the window below every other window.
    PinToBottom(WindowHandle),
    /// Reserve the top edge of the screen for the window.
    DockAtTop(WindowHandle),
    /// Restore the application window with this native id, if it is
    /// minimized, and bring it to the foreground.
    FocusTask(u32),
    /// Extract the icon of an application window. The host answers with
    /// `Extracted`, carrying the icon as a data URL, or nothing if it failed.
    ExtractIcon(WindowInfo),
    /// Turn decoded image bytes into an image. The host answers with
    /// `Allocate`.
    AllocateIcon(WindowInfo, Vec<u8>),
    /// Carry out a power action. The host answers with `Completed`.
    PowerAction(PowerOptions),
    /// End the process.
    Exit,
    /// Open `path` with the file manager. If that works the host answers
    /// with `WindowClose(window)`.
    Launch { path: String, window: WindowHandle },
    /// Load the icon of the start-menu entry at this path into the image
    /// cache, unless the cache holds it already.
    LoadIcon(String),
    /// Read the start-menu preferences and list the program folders for the
    /// start menu in this window. The host answers with the start menu's
    /// `Init`.
    LoadStartMenu(WindowHandle),
    /// Write the start-menu settings to the preferences file.
    SaveSettings(StartMenuSettings),
    /// Set the output volume, in thousandths of full volume, and the mute
    /// switch.
    SetVolume { level: u16, muted: bool },
}

pub enum EffectView {
    OpenWindow { handle: WindowHandle, kind: WindowKind, settings: WindowSettings },
    CloseWindow(WindowHandle),
    Resize(WindowHandle, Extent),
    MoveTo(WindowHandle, Point),
    QueryMonitorSize(WindowHandle, WindowKind),
    SetNoActivate(WindowHandle),
    PinToBottom(WindowHandle),
    DockAtTop(WindowHandle),
    FocusTask(u32),
    ExtractIcon(WindowInfoView),
    AllocateIcon(WindowInfoView, Seq<u8>),
    PowerAction(PowerOptions),
    Exit,
    Launch { path: Seq<char>, window: WindowHandle },
    LoadIcon(Seq<char>),
    LoadStartMenu(WindowHandle),
    SaveSettings(StartMenuSettingsView),
    SetVolume { level: u16, muted: bool },
}

impl View for Effect {
    type V = EffectView;

    open spec fn view(&self) -> EffectView {
        match *self {
            Effect::OpenWindow { handle, kind, settings } => EffectView::OpenWindow {
                handle,
                kind,
                settings,
            },
            Effect::CloseWindow(handle) => EffectView::CloseWindow(handle),
            Effect::Resize(handle, extent) => EffectView::Resize(handle, extent),
            Effect::MoveTo(handle, point) => EffectView::MoveTo(handle, point),
            Effect::QueryMonitorSize(handle, kind) => EffectView::QueryMonitorSize(handle, kind),
            Effect::SetNoActivate(handle) => EffectView::SetNoActivate(handle),
            Effect::PinToBottom(handle) => EffectView::PinToBottom(handle),
            Effect::DockAtTop(handle) => EffectView::DockAtTop(handle),
            Effect::FocusTask(id) => EffectView::FocusTask(id),
            Effect::ExtractIcon(window) => EffectView::ExtractIcon(window@),
            Effect::AllocateIcon(window, bytes) => EffectView::AllocateIcon(window@, bytes@),
            Effect::PowerAction(option) => EffectView::PowerAction(option),
            Effect::Exit => EffectView::Exit,
            Effect::Launch { path, window } => EffectView::Launch { path: path@, window },
            Effect::LoadIcon(path) => EffectView::LoadIcon(path@),
            Effect::LoadStartMenu(handle) => EffectView::LoadStartMenu(handle),
            Effect::SaveSettings(settings) => EffectView::SaveSettings(settings@),
            Effect::SetVolume { level, muted } => EffectView::SetVolume { level, muted },
        }
    }
}

} // verus!
