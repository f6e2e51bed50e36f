//! The orchestrator of the shell: it owns the five window controllers and
//! the device status, hands every message to the controller it is meant
//! for, and decides which windows are opened, closed and opened again.

use vstd::prelude::*;
use vstd::string::StringExecFns;
use crate::desktop::{Desktop, DesktopMessage};
use crate::device::{
    clamp_volume, spec_clamp_volume, DeviceSnapshot, DeviceSnapshotView, Readings, ReadingsView,
};
use crate::effect::{Effect, EffectView};
use crate::panel_menu::{PanelMenu, PanelMessage};
use crate::power::{PowerMenuMessage, PowerOptions, PowerWindow};
use crate::start_menu::{StartMenu, StartMenuView, StartMessage, StartMessageView};
use crate::tasks::{
    Taskbar, TaskbarMessage, TaskbarMessageView, TaskbarView, TaskEntryView, WindowInfo,
    WindowInfoView,
};
use crate::views::seq_view;
use crate::window::{Size, Timestamp, WindowHandle, WindowKind, WindowSettings};

verus! {

/// What the host found on one tick of the timer: the device readings, and
/// the application windows it enumerated, or nothing if that failed.
#[derive(Clone, Debug)]
pub struct TickData {
    pub readings: Readings,
    pub windows: Option<Vec<WindowInfo>>,
}

pub struct TickDataView {
    pub readings: ReadingsView,
    pub windows: Option<Seq<WindowInfoView>>,
}

impl View for TickData {
    type V = TickDataView;

    open spec fn view(&self) -> TickDataView {
        TickDataView {
            readings: self.readings@,
            windows: match self.windows {
                Some(list) => Some(seq_view(list@)),
                None => None,
            },
        }
    }
}

/// What the shell reacts to.
#[derive(Debug)]
pub enum Message {
    WindowOpened(WindowHandle),
    WindowClosed(WindowHandle),
    WindowLostFocus(WindowHandle),
    WindowCaughtFocus(WindowHandle),
    WindowClose(WindowHandle),
    OpenStartMenu,
    MetaPressed,
    OpenPanelMenu,
    OpenPowerWindow(PowerOptions),
    Taskbar(TaskbarMessage),
    Desktop(DesktopMessage),
    StartMenu(StartMessage),
    PanelMenu(PanelMessage),
    PowerMenu(PowerMenuMessage),
    /// The volume slider was moved to this many thousandths.
    VolumeChange(u16),
    VolumeMute,
    ResizeContext(Size),
    Tick(TickData),
    Nothing,
}

pub enum MessageView {
    WindowOpened(WindowHandle),
    WindowClosed(WindowHandle),
    WindowLostFocus(WindowHandle),
    WindowCaughtFocus(WindowHandle),
    WindowClose(WindowHandle),
    OpenStartMenu,
    MetaPressed,
    OpenPanelMenu,
    OpenPowerWindow(PowerOptions),
    Taskbar(TaskbarMessageView),
    Desktop(DesktopMessage),
    StartMenu(StartMessageView),
    PanelMenu(PanelMessage),
    PowerMenu(PowerMenuMessage),
    VolumeChange(u16),
    VolumeMute,
    ResizeContext(Size),
    Tick(TickDataView),
    Nothing,
}

impl View for Message {
    type V = MessageView;

    open spec fn view(&self) -> MessageView {
        match *self {
            Message::WindowOpened(id) => MessageView::WindowOpened(id),
            Message::WindowClosed(id) => MessageView::WindowClosed(id),
            Message::WindowLostFocus(id) => MessageView::WindowLostFocus(id),
            Message::WindowCaughtFocus(id) => MessageView::WindowCaughtFocus(id),
            Message::WindowClose(id) => MessageView::WindowClose(id),
            Message::OpenStartMenu => MessageView::OpenStartMenu,
            Message::MetaPressed => MessageView::MetaPressed,
            Message::OpenPanelMenu => MessageView::OpenPanelMenu,
            Message::OpenPowerWindow(option) => MessageView::OpenPowerWindow(option),
            Message::Taskbar(message) => MessageView::Taskbar(message@),
            Message::Desktop(message) => MessageView::Desktop(message),
            Message::StartMenu(message) => MessageView::StartMenu(message@),
            Message::PanelMenu(message) => MessageView::PanelMenu(message),
            Message::PowerMenu(message) => MessageView::PowerMenu(message),
            Message::VolumeChange(level) => MessageView::VolumeChange(level),
            Message::VolumeMute => MessageView::VolumeMute,
            Message::ResizeContext(size) => MessageView::ResizeContext(size),
            Message::Tick(data) => MessageView::Tick(data@),
            Message::Nothing => MessageView::Nothing,
        }
    }
}

/// What a host event on a window means to the shell.
#[derive(Clone, Copy, Debug, PartialEq, Eq, Structural)]
pub enum WindowEvent {
    Closed,
    Unfocused,
    Focused,
    Other,
}

/// The message for a host event on the window `id`.
pub fn window_message(id: WindowHandle, event: WindowEvent) -> (message: Message)
    ensures
        message@ == match event {
            WindowEvent::Closed => MessageView::WindowClosed(id),
            WindowEvent::Unfocused => MessageView::WindowLostFocus(id),
            WindowEvent::Focused => MessageView::WindowCaughtFocus(id),
            WindowEvent::Other => MessageView::Nothing,
        },
{
    match event {
        WindowEvent::Closed => Message::WindowClosed(id),
        WindowEvent::Unfocused => Message::WindowLostFocus(id),
        WindowEvent::Focused => Message::WindowCaughtFocus(id),
        WindowEvent::Other => Message::Nothing,
    }
}

pub struct AppMain {
    taskbar: Taskbar,
    desktop: Desktop,
    start_menu: Option<StartMenu>,
    panel_menu: Option<PanelMenu>,
    power_window: Option<PowerWindow>,
    snapshot: DeviceSnapshot,
    next_handle: u64,
}

pub struct AppMainView {
    pub taskbar: TaskbarView,
    pub desktop: Desktop,
    pub start_menu: Option<StartMenuView>,
    pub panel_menu: Option<PanelMenu>,
    pub power_window: Option<PowerWindow>,
    pub snapshot: DeviceSnapshotView,
    /// The number of the next window handle to hand out.
    pub next_handle: u64,
}

impl View for AppMain {
    type V = AppMainView;

    closed spec fn view(&self) -> AppMainView {
        AppMainView {
            taskbar: self.taskbar@,
            desktop: self.desktop,
            start_menu: match self.start_menu {
                Some(menu) => Some(menu@),
                None => None,
            },
            panel_menu: self.panel_menu,
            power_window: self.power_window,
            snapshot: self.snapshot@,
            next_handle: self.next_handle,
        }
    }
}

/// The request to open the window of kind `kind` under the handle `handle`.
pub open spec fn open_request(handle: WindowHandle, kind: WindowKind) -> EffectView {
    EffectView::OpenWindow { handle, kind, settings: WindowSettings::spec_for_kind(kind) }
}

/// How many of `effects` ask for a window to be opened.
pub open spec fn opens(effects: Seq<EffectView>) -> nat
    decreases effects.len(),
{
    if effects.len() == 0 {
        0
    } else if effects.last() is OpenWindow {
        opens(effects.drop_last()) + 1
    } else {
        opens(effects.drop_last())
    }
}

impl AppMainView {
    /// The shell as it starts: the desktop in the window 0 and the taskbar
    /// in the window 1, no menu and no dialog, nothing read yet.
    pub open spec fn initial() -> AppMainView {
        AppMainView {
            taskbar: TaskbarView { id: WindowHandle(1), tasks: Map::empty() },
            desktop: Desktop { id: WindowHandle(0) },
            start_menu: None,
            panel_menu: None,
            power_window: None,
            snapshot: DeviceSnapshotView::initial(),
            next_handle: 2,
        }
    }

    /// Whether the handle is one that the shell has handed out.
    pub open spec fn issued(self, handle: WindowHandle) -> bool {
        handle.0 < self.next_handle
    }

    /// The windows of the shell have handles that it has handed out, and no
    /// two of them have the same.
    pub open spec fn wf(self) -> bool {
        &&& self.issued(self.taskbar.id)
        &&& self.issued(self.desktop.id)
        &&& self.taskbar.id != self.desktop.id
        &&& self.start_menu matches Some(menu) ==> {
            &&& self.issued(menu.id)
            &&& menu.id != self.taskbar.id
            &&& menu.id != self.desktop.id
        }
        &&& self.panel_menu matches Some(panel) ==> {
            &&& self.issued(panel.id)
            &&& panel.id != self.taskbar.id
            &&& panel.id != self.desktop.id
            &&& self.start_menu matches Some(menu) ==> menu.id != panel.id
        }
        &&& self.power_window matches Some(dialog) ==> {
            &&& self.issued(dialog.id)
            &&& dialog.id != self.taskbar.id
            &&& dialog.id != self.desktop.id
            &&& self.start_menu matches Some(menu) ==> menu.id != dialog.id
            &&& self.panel_menu matches Some(panel) ==> panel.id != dialog.id
        }
    }

    pub open spec fn is_start_menu(self, id: WindowHandle) -> bool {
        self.start_menu matches Some(menu) && menu.id == id
    }

    pub open spec fn is_panel_menu(self, id: WindowHandle) -> bool {
        self.panel_menu matches Some(panel) && panel.id == id
    }

    pub open spec fn is_power_window(self, id: WindowHandle) -> bool {
        self.power_window matches Some(dialog) && dialog.id == id
    }

    /// The kind of the shell's window with the handle `id`, if it has one.
    pub open spec fn owner(self, id: WindowHandle) -> Option<WindowKind> {
        if id == self.taskbar.id {
            Some(WindowKind::Taskbar)
        } else if id == self.desktop.id {
            Some(WindowKind::Desktop)
        } else if self.is_start_menu(id) {
            Some(WindowKind::StartMenu)
        } else if self.is_panel_menu(id) {
            Some(WindowKind::PanelMenu)
        } else if self.is_power_window(id) {
            Some(WindowKind::PowerWindow)
        } else {
            None
        }
    }

    /// The handle that the next window gets.
    pub open spec fn fresh(self) -> WindowHandle {
        WindowHandle(self.next_handle)
    }

    /// The shell after the handle `fresh()` was handed out. After the last
    /// number the count starts again at 0.
    pub open spec fn minted(self) -> AppMainView {
        AppMainView {
            next_handle: if self.next_handle == u64::MAX {
                0
            } else {
                (self.next_handle + 1) as u64
            },
            ..self
        }
    }

    /// A window of the shell has opened: its controller is told so. The
    /// start menu asks the host for what it shows.
    pub open spec fn window_opened(self, id: WindowHandle, now: Timestamp) -> (
        AppMainView,
        Seq<EffectView>,
    ) {
        match self.owner(id) {
            Some(WindowKind::Taskbar) => (
                AppMainView { taskbar: self.taskbar.step(TaskbarMessageView::Init).0, ..self },
                self.taskbar.step(TaskbarMessageView::Init).1,
            ),
            Some(WindowKind::Desktop) => (self, self.desktop.effects_of(DesktopMessage::Init)),
            Some(WindowKind::StartMenu) => (self, seq![EffectView::LoadStartMenu(id)]),
            Some(WindowKind::PanelMenu) => (
                self,
                self.panel_menu->0.effects_of(PanelMessage::Init),
            ),
            Some(WindowKind::PowerWindow) => (
                AppMainView {
                    power_window: Some(
                        self.power_window->0.step(PowerMenuMessage::Init(now)).0,
                    ),
                    ..self
                },
                self.power_window->0.step(PowerMenuMessage::Init(now)).1,
            ),
            None => (self, Seq::empty()),
        }
    }

    /// A window has closed. The desktop and the taskbar are opened again at
    /// once, under a new handle and in their first state; a menu or the
    /// dialog is forgotten.
    pub open spec fn window_closed(self, id: WindowHandle) -> (AppMainView, Seq<EffectView>) {
        if id == self.desktop.id {
            (
                AppMainView { desktop: Desktop { id: self.fresh() }, ..self.minted() },
                seq![open_request(self.fresh(), WindowKind::Desktop)],
            )
        } else if id == self.taskbar.id {
            (
                AppMainView {
                    taskbar: TaskbarView { id: self.fresh(), tasks: Map::empty() },
                    ..self.minted()
                },
                seq![open_request(self.fresh(), WindowKind::Taskbar)],
            )
        } else if self.is_start_menu(id) {
            (AppMainView { start_menu: None, ..self }, Seq::empty())
        } else if self.is_panel_menu(id) {
            (AppMainView { panel_menu: None, ..self }, Seq::empty())
        } else if self.is_power_window(id) {
            (AppMainView { power_window: None, ..self }, Seq::empty())
        } else {
            (self, Seq::empty())
        }
    }

    /// A window has lost the focus. The menus are dismissed; the power
    /// dialog is cancelled.
    pub open spec fn window_lost_focus(self, id: WindowHandle) -> (AppMainView, Seq<EffectView>) {
        if self.is_start_menu(id) {
            (self, seq![EffectView::CloseWindow(id)])
        } else if self.is_panel_menu(id) {
            (self, seq![EffectView::CloseWindow(id)])
        } else if self.is_power_window(id) {
            (
                AppMainView {
                    power_window: Some(self.power_window->0.step(PowerMenuMessage::Cancel).0),
                    ..self
                },
                self.power_window->0.step(PowerMenuMessage::Cancel).1,
            )
        } else {
            (self, Seq::empty())
        }
    }

    /// One tick of the timer: the device status follows the readings, then
    /// the power dialog counts down and the taskbar reconciles its tasks.
    pub open spec fn ticked(self, data: TickDataView, now: Timestamp) -> (
        AppMainView,
        Seq<EffectView>,
    ) {
        let (power_window, counted) = match self.power_window {
            Some(dialog) => (
                Some(dialog.step(PowerMenuMessage::Tick(now)).0),
                dialog.step(PowerMenuMessage::Tick(now)).1,
            ),
            None => (None, Seq::empty()),
        };
        let reconciled = self.taskbar.step(TaskbarMessageView::Tick(data.windows));
        (
            AppMainView {
                snapshot: self.snapshot.refreshed(data.readings),
                power_window,
                taskbar: reconciled.0,
                ..self
            },
            counted + reconciled.1,
        )
    }

    /// The shell after `message`, which arrives at the time `now`, and what
    /// the host is asked to do.
    pub open spec fn step(self, message: MessageView, now: Timestamp) -> (
        AppMainView,
        Seq<EffectView>,
    ) {
        match message {
            MessageView::WindowOpened(id) => self.window_opened(id, now),
            MessageView::WindowClosed(id) => self.window_closed(id),
            MessageView::WindowClose(id) => if self.is_start_menu(id) {
                (self, seq![EffectView::CloseWindow(id)])
            } else {
                (self, Seq::empty())
            },
            MessageView::WindowLostFocus(id) => self.window_lost_focus(id),
            MessageView::WindowCaughtFocus(id) => if id == self.desktop.id {
                (self, self.desktop.effects_of(DesktopMessage::KeepAtBottom))
            } else {
                (self, Seq::empty())
            },
            MessageView::Taskbar(message) => (
                AppMainView { taskbar: self.taskbar.step(message).0, ..self },
                self.taskbar.step(message).1,
            ),
            MessageView::Desktop(message) => (self, self.desktop.effects_of(message)),
            MessageView::OpenStartMenu => (
                AppMainView {
                    start_menu: Some(StartMenuView::initial(self.fresh())),
                    ..self.minted()
                },
                seq![open_request(self.fresh(), WindowKind::StartMenu)],
            ),
            MessageView::OpenPanelMenu => (
                AppMainView { panel_menu: Some(PanelMenu { id: self.fresh() }), ..self.minted() },
                seq![open_request(self.fresh(), WindowKind::PanelMenu)],
            ),
            MessageView::OpenPowerWindow(option) => (
                AppMainView {
                    power_window: Some(
                        PowerWindow {
                            id: self.fresh(),
                            time: now,
                            target: option,
                            state: crate::power::Countdown::Active,
                        },
                    ),
                    ..self.minted()
                },
                seq![open_request(self.fresh(), WindowKind::PowerWindow)],
            ),
            MessageView::StartMenu(message) => match self.start_menu {
                Some(menu) => (
                    AppMainView { start_menu: Some(menu.step(message).0), ..self },
                    menu.step(message).1,
                ),
                None => (self, Seq::empty()),
            },
            MessageView::PanelMenu(message) => match self.panel_menu {
                Some(panel) => (self, panel.effects_of(message)),
                None => (self, Seq::empty()),
            },
            MessageView::PowerMenu(message) => match self.power_window {
                Some(dialog) => (
                    AppMainView { power_window: Some(dialog.step(message).0), ..self },
                    dialog.step(message).1,
                ),
                None => (self, Seq::empty()),
            },
            MessageView::VolumeChange(level) => (
                self,
                seq![
                    EffectView::SetVolume {
                        level: spec_clamp_volume(level),
                        muted: self.snapshot.volume.muted,
                    },
                ],
            ),
            MessageView::VolumeMute => (
                self,
                seq![
                    EffectView::SetVolume {
                        level: spec_clamp_volume(self.snapshot.volume.level),
                        muted: !self.snapshot.volume.muted,
                    },
                ],
            ),
            MessageView::Tick(data) => self.ticked(data, now),
            MessageView::MetaPressed => (self, Seq::empty()),
            MessageView::ResizeContext(_) => (self, Seq::empty()),
            MessageView::Nothing => (self, Seq::empty()),
        }
    }

    /// The title of the window with the handle `id`.
    pub open spec fn title(self, id: WindowHandle) -> Seq<char> {
        match self.owner(id) {
            Some(WindowKind::Taskbar) => "FrostWin Taskbar"@,
            Some(WindowKind::Desktop) => "FrostWin Desktop"@,
            Some(WindowKind::StartMenu) => "FrostWin StartMenu"@,
            Some(WindowKind::PanelMenu) => "FrostWin PanelMenu"@,
            _ => "FrostWin Unknown"@,
        }
    }
}

impl AppMain {
    /// The shell as it starts, and the requests to open the taskbar and the
    /// desktop.
    pub fn new() -> (started: (Self, Vec<Effect>))
        ensures
            started.0@ == AppMainView::initial(),
            started.0@.wf(),
            seq_view(started.1@) == seq![
                open_request(WindowHandle(1), WindowKind::Taskbar),
                open_request(WindowHandle(0), WindowKind::Desktop),
            ],
    {
        let (desktop, open_desktop) = Desktop::new(WindowHandle(0));
        let (taskbar, open_taskbar) = Taskbar::new(WindowHandle(1));
        let mut effects: Vec<Effect> = Vec::new();
        effects.push(open_taskbar);
        effects.push(open_desktop);
        assert(seq_view(effects@) =~= seq![
            open_request(WindowHandle(1), WindowKind::Taskbar),
            open_request(WindowHandle(0), WindowKind::Desktop),
        ]);
        (
            AppMain {
                taskbar,
                desktop,
                start_menu: None,
                panel_menu: None,
                power_window: None,
                snapshot: DeviceSnapshot::new(),
                next_handle: 2,
            },
            effects,
        )
    }

    /// Whether the next window handle is one that was never handed out.
    pub fn can_open(&self) -> (can: bool)
        ensures
            can == (self@.next_handle < u64::MAX),
    {
        self.next_handle < u64::MAX
    }

    fn owns_start_menu(&self, id: WindowHandle) -> (owns: bool)
        ensures
            owns == self@.is_start_menu(id),
    {
        match &self.start_menu {
            Some(menu) => menu.handle() == id,
            None => false,
        }
    }

    fn owns_panel_menu(&self, id: WindowHandle) -> (owns: bool)
        ensures
            owns == self@.is_panel_menu(id),
    {
        match &self.panel_menu {
            Some(panel) => panel.id == id,
            None => false,
        }
    }

    fn owns_power_window(&self, id: WindowHandle) -> (owns: bool)
        ensures
            owns == self@.is_power_window(id),
    {
        match &self.power_window {
            Some(dialog) => dialog.id == id,
            None => false,
        }
    }

    /// The kind of the shell's window with the handle `window_id`: what is
    /// to be shown in it. A handle that belongs to none of the windows
    /// shows nothing.
    pub fn window_kind(&self, window_id: WindowHandle) -> (kind: Option<WindowKind>)
        ensures
            kind == self@.owner(window_id),
    {
        if window_id == self.taskbar.handle() {
            Some(WindowKind::Taskbar)
        } else if window_id == self.desktop.id {
            Some(WindowKind::Desktop)
        } else if self.owns_start_menu(window_id) {
            Some(WindowKind::StartMenu)
        } else if self.owns_panel_menu(window_id) {
            Some(WindowKind::PanelMenu)
        } else if self.owns_power_window(window_id) {
            Some(WindowKind::PowerWindow)
        } else {
            None
        }
    }

    pub fn title(&self, window_id: WindowHandle) -> (title: String)
        ensures
            title@ == self@.title(window_id),
    {
        match self.window_kind(window_id) {
            Some(WindowKind::Taskbar) => String::from_str("FrostWin Taskbar"),
            Some(WindowKind::Desktop) => String::from_str("FrostWin Desktop"),
            Some(WindowKind::StartMenu) => String::from_str("FrostWin StartMenu"),
            Some(WindowKind::PanelMenu) => String::from_str("FrostWin PanelMenu"),
            _ => String::from_str("FrostWin Unknown"),
        }
    }

    /// Hands out the next window handle.
    fn mint(&mut self) -> (handle: WindowHandle)
        ensures
            handle == old(self)@.fresh(),
            final(self)@ == old(self)@.minted(),
    {
        let handle = WindowHandle(self.next_handle);
        self.next_handle = if self.next_handle == u64::MAX {
            0
        } else {
            self.next_handle + 1
        };
        handle
    }

    fn window_opened(&mut self, id: WindowHandle, now: Timestamp) -> (effects: Vec<Effect>)
        ensures
            final(self)@ == old(self)@.window_opened(id, now).0,
            seq_view(effects@) == old(self)@.window_opened(id, now).1,
    {
        match self.window_kind(id) {
            Some(WindowKind::Taskbar) => self.taskbar.update(TaskbarMessage::Init),
            Some(WindowKind::Desktop) => self.desktop.update(DesktopMessage::Init),
            Some(WindowKind::StartMenu) => {
                let mut effects: Vec<Effect> = Vec::new();
                effects.push(Effect::LoadStartMenu(id));
                assert(seq_view(effects@) =~= seq![EffectView::LoadStartMenu(id)]);
                effects
            },
            Some(WindowKind::PanelMenu) => match &mut self.panel_menu {
                Some(panel) => panel.update(PanelMessage::Init),
                None => Vec::new(),
            },
            Some(WindowKind::PowerWindow) => match &mut self.power_window {
                Some(dialog) => dialog.update(PowerMenuMessage::Init(now)),
                None => Vec::new(),
            },
            None => {
                let effects: Vec<Effect> = Vec::new();
                assert(seq_view(effects@) =~= Seq::<EffectView>::empty());
                effects
            },
        }
    }

    fn window_closed(&mut self, id: WindowHandle) -> (effects: Vec<Effect>)
        ensures
            final(self)@ == old(self)@.window_closed(id).0,
            seq_view(effects@) == old(self)@.window_closed(id).1,
    {
        let mut effects: Vec<Effect> = Vec::new();
        if id == self.desktop.id {
            let (desktop, open_desktop) = Desktop::new(self.mint());
            self.desktop = desktop;
            effects.push(open_desktop);
        } else if id == self.taskbar.handle() {
            let (taskbar, open_taskbar) = Taskbar::new(self.mint());
            self.taskbar = taskbar;
            effects.push(open_taskbar);
        } else if self.owns_start_menu(id) {
            self.start_menu = None;
        } else if self.owns_panel_menu(id) {
            self.panel_menu = None;
        } else if self.owns_power_window(id) {
            self.power_window = None;
        }
        assert(seq_view(effects@) =~= old(self)@.window_closed(id).1);
        effects
    }

    fn window_lost_focus(&mut self, id: WindowHandle) -> (effects: Vec<Effect>)
        ensures
            final(self)@ == old(self)@.window_lost_focus(id).0,
            seq_view(effects@) == old(self)@.window_lost_focus(id).1,
    {
        let mut effects: Vec<Effect> = Vec::new();
        if self.owns_start_menu(id) {
            effects.push(Effect::CloseWindow(id));
        } else if self.owns_panel_menu(id) {
            effects.push(Effect::CloseWindow(id));
        } else if self.owns_power_window(id) {
            match &mut self.power_window {
                Some(dialog) => {
                    effects = dialog.update(PowerMenuMessage::Cancel);
                },
                None => {},
            }
        }
        assert(seq_view(effects@) =~= old(self)@.window_lost_focus(id).1);
        effects
    }

    fn tick(&mut self, data: TickData, now: Timestamp) -> (effects: Vec<Effect>)
        ensures
            final(self)@ == old(self)@.ticked(data@, now).0,
            seq_view(effects@) == old(self)@.ticked(data@, now).1,
    {
        let TickData { readings, windows } = data;
        self.snapshot.refresh(readings);
        let mut effects: Vec<Effect> = match &mut self.power_window {
            Some(dialog) => dialog.update(PowerMenuMessage::Tick(now)),
            None => Vec::new(),
        };
        let ghost counted = seq_view(effects@);
        let mut reconciled = self.taskbar.update(TaskbarMessage::Tick(windows));
        let ghost asked = seq_view(reconciled@);
        effects.append(&mut reconciled);
        assert(seq_view(effects@) =~= counted + asked);
        assert(counted =~= old(self)@.ticked(data@, now).1.take(counted.len() as int));
        effects
    }

    /// Hands `message`, which arrives at the time `now`, to the controller
    /// it is meant for, and returns what the host is asked to do.
    pub fn update(&mut self, message: Message, now: Timestamp) -> (effects: Vec<Effect>)
        ensures
            final(self)@ == old(self)@.step(message@, now).0,
            seq_view(effects@) == old(self)@.step(message@, now).1,
            old(self)@.wf() && old(self)@.next_handle < u64::MAX ==> final(self)@.wf(),
    {
        let mut effects: Vec<Effect> = Vec::new();
        match message {
            Message::WindowOpened(id) => {
                effects = self.window_opened(id, now);
            },
            Message::WindowClosed(id) => {
                effects = self.window_closed(id);
            },
            Message::WindowClose(id) => {
                if self.owns_start_menu(id) {
                    effects.push(Effect::CloseWindow(id));
                }
            },
            Message::WindowLostFocus(id) => {
                effects = self.window_lost_focus(id);
            },
            Message::WindowCaughtFocus(id) => {
                if id == self.desktop.id {
                    effects = self.desktop.update(DesktopMessage::KeepAtBottom);
                }
            },
            Message::Taskbar(message) => {
                effects = self.taskbar.update(message);
            },
            Message::Desktop(message) => {
                effects = self.desktop.update(message);
            },
            Message::OpenStartMenu => {
                let (menu, open_menu) = StartMenu::new(self.mint());
                self.start_menu = Some(menu);
                effects.push(open_menu);
            },
            Message::OpenPanelMenu => {
                let (panel, open_panel) = PanelMenu::new(self.mint());
                self.panel_menu = Some(panel);
                effects.push(open_panel);
            },
            Message::OpenPowerWindow(option) => {
                let (dialog, open_dialog) = PowerWindow::new(self.mint(), option, now);
                self.power_window = Some(dialog);
                effects.push(open_dialog);
            },
            Message::StartMenu(message) => {
                match &mut self.start_menu {
                    Some(menu) => {
                        effects = menu.update(message);
                    },
                    None => {},
                }
            },
            Message::PanelMenu(message) => {
                match &mut self.panel_menu {
                    Some(panel) => {
                        effects = panel.update(message);
                    },
                    None => {},
                }
            },
            Message::PowerMenu(message) => {
                match &mut self.power_window {
                    Some(dialog) => {
                        effects = dialog.update(message);
                    },
                    None => {},
                }
            },
            Message::VolumeChange(level) => {
                effects.push(
                    Effect::SetVolume {
                        level: clamp_volume(level),
                        muted: self.snapshot.volume.muted,
                    },
                );
            },
            Message::VolumeMute => {
                effects.push(
                    Effect::SetVolume {
                        level: clamp_volume(self.snapshot.volume.level),
                        muted: !self.snapshot.volume.muted,
                    },
                );
            },
            Message::Tick(data) => {
                effects = self.tick(data, now);
            },
            Message::MetaPressed => {},
            Message::ResizeContext(_) => {},
            Message::Nothing => {},
        }
        assert(seq_view(effects@) =~= old(self)@.step(message@, now).1);
        effects
    }

    /// The device status as it was last read.
    pub fn snapshot(&self) -> (snapshot: &DeviceSnapshot)
        ensures
            snapshot@ == self@.snapshot,
    {
        &self.snapshot
    }

    pub fn taskbar(&self) -> (taskbar: &Taskbar)
        ensures
            taskbar@ == self@.taskbar,
    {
        &self.taskbar
    }

    pub fn desktop(&self) -> (desktop: &Desktop)
        ensures
            *desktop == self@.desktop,
    {
        &self.desktop
    }

    pub fn start_menu(&self) -> (menu: Option<&StartMenu>)
        ensures
            match menu {
                Some(menu) => self@.start_menu == Some(menu@),
                None => self@.start_menu is None,
            },
    {
        self.start_menu.as_ref()
    }

    pub fn panel_menu(&self) -> (panel: Option<&PanelMenu>)
        ensures
            match panel {
                Some(panel) => self@.panel_menu == Some(*panel),
                None => self@.panel_menu is None,
            },
    {
        self.panel_menu.as_ref()
    }

    pub fn power_window(&self) -> (dialog: Option<&PowerWindow>)
        ensures
            match dialog {
                Some(dialog) => self@.power_window == Some(*dialog),
                None => self@.power_window is None,
            },
    {
        self.power_window.as_ref()
    }

    /// The message that a press on the start button sends: it opens the
    /// start menu unless that is open already.
    pub fn start_button(&self) -> (message: Message)
        ensures
            message@ == if self@.start_menu is Some {
                MessageView::Nothing
            } else {
                MessageView::OpenStartMenu
            },
    {
        if self.start_menu.is_some() {
            Message::Nothing
        } else {
            Message::OpenStartMenu
        }
    }

    /// The message that a press on the status area sends: it opens the
    /// panel unless that is open already.
    pub fn panel_button(&self) -> (message: Message)
        ensures
            message@ == if self@.panel_menu is Some {
                MessageView::Nothing
            } else {
                MessageView::OpenPanelMenu
            },
    {
        if self.panel_menu.is_some() {
            Message::Nothing
        } else {
            Message::OpenPanelMenu
        }
    }
}

/// When a window closes, the shell asks for exactly one window if it was
/// the desktop or the taskbar, namely for that window again under a handle
/// never used before, and for none if it was a menu, the dialog or a
/// window that is not the shell's.
pub proof fn law_close_replaces_permanent_windows(
    shell: AppMainView,
    id: WindowHandle,
    now: Timestamp,
)
    requires
        shell.wf(),
        shell.next_handle < u64::MAX,
    ensures
        ({
            let (after, effects) = shell.step(MessageView::WindowClosed(id), now);
            &&& after.wf()
            &&& id == shell.desktop.id ==> effects == seq![
                open_request(shell.fresh(), WindowKind::Desktop),
            ] && after.desktop.id == shell.fresh() && after.taskbar == shell.taskbar
            &&& id == shell.taskbar.id ==> effects == seq![
                open_request(shell.fresh(), WindowKind::Taskbar),
            ] && after.taskbar.id == shell.fresh() && after.desktop == shell.desktop
            &&& id == shell.desktop.id || id == shell.taskbar.id ==> opens(effects) == 1
                && !shell.issued(shell.fresh())
            &&& id != shell.desktop.id && id != shell.taskbar.id ==> effects == Seq::<
                EffectView,
            >::empty() && opens(effects) == 0 && after.desktop == shell.desktop && after.taskbar
                == shell.taskbar
            &&& shell.is_start_menu(id) ==> after.start_menu is None
            &&& shell.is_panel_menu(id) ==> after.panel_menu is None
            &&& shell.is_power_window(id) ==> after.power_window is None
        }),
{
    let (after, effects) = shell.step(MessageView::WindowClosed(id), now);
    if id == shell.desktop.id || id == shell.taskbar.id {
        assert(effects.drop_last() =~= Seq::<EffectView>::empty());
        assert(opens(effects.drop_last()) == 0);
    }
}

/// The windows of the shell keep different handles, whatever it is sent.
pub proof fn law_handles_stay_distinct(shell: AppMainView, message: MessageView, now: Timestamp)
    requires
        shell.wf(),
        shell.next_handle < u64::MAX,
    ensures
        shell.step(message, now).0.wf(),
{
}

} // verus!
