use frostwin::desktop::{Desktop, DesktopMessage};
use frostwin::device::{Battery, Readings, Volume, WifiStatus};
use frostwin::effect::Effect;
use frostwin::panel_menu::{PanelMenu, PanelMessage};
use frostwin::power::{Countdown, PowerMenuMessage, PowerOptions};
use frostwin::shell::{window_message, AppMain, Message, TickData, WindowEvent};
use frostwin::start_menu::{StartMenuLoad, StartMenuTab, StartMessage};
use frostwin::tasks::{TaskbarMessage, WindowInfo};
use frostwin::window::{Extent, Point, Size, WindowHandle, WindowKind};

fn shell() -> AppMain {
    AppMain::new().0
}

fn opened(effects: &[Effect]) -> Vec<(WindowHandle, WindowKind)> {
    effects
        .iter()
        .filter_map(|effect| match effect {
            Effect::OpenWindow { handle, kind, .. } => Some((*handle, *kind)),
            _ => None,
        })
        .collect()
}

fn quiet() -> Readings {
    Readings { battery: None, wifi: WifiStatus::Disconnected, volume: None }
}

fn tick(windows: Option<Vec<WindowInfo>>) -> Message {
    Message::Tick(TickData { readings: quiet(), windows })
}

fn window(id: u32) -> WindowInfo {
    WindowInfo { id, title: format!("window {}", id), exec_name: "app".to_string() }
}

/// Opens one window of each kind and returns the shell with the handles of
/// the start menu, the panel and the power dialog.
fn full() -> (AppMain, WindowHandle, WindowHandle, WindowHandle) {
    let mut app = shell();
    let start = opened(&app.update(Message::OpenStartMenu, 0))[0].0;
    let panel = opened(&app.update(Message::OpenPanelMenu, 0))[0].0;
    let power = opened(&app.update(Message::OpenPowerWindow(PowerOptions::Shutdown), 0))[0].0;
    (app, start, panel, power)
}

#[test]
fn start_asks_for_taskbar_and_desktop() {
    let (app, effects) = AppMain::new();
    assert_eq!(
        opened(&effects),
        vec![(WindowHandle(1), WindowKind::Taskbar), (WindowHandle(0), WindowKind::Desktop)]
    );
    assert_eq!(effects.len(), 2);
    assert_eq!(app.taskbar().handle(), WindowHandle(1));
    assert_eq!(app.desktop().id, WindowHandle(0));
    assert!(app.start_menu().is_none());
    assert!(app.panel_menu().is_none());
    assert!(app.power_window().is_none());
    assert!(app.can_open());
    assert_eq!(app.snapshot().battery, None);
}

#[test]
fn closing_the_desktop_asks_for_exactly_one_new_desktop() {
    let mut app = shell();
    let old = app.desktop().id;
    let effects = app.update(Message::WindowClosed(old), 0);
    assert_eq!(effects.len(), 1);
    let windows = opened(&effects);
    assert_eq!(windows.len(), 1);
    assert_eq!(windows[0].1, WindowKind::Desktop);
    assert_ne!(windows[0].0, old);
    assert_eq!(app.desktop().id, windows[0].0);
    assert_eq!(app.taskbar().handle(), WindowHandle(1));
    assert_eq!(app.window_kind(old), None);
}

#[test]
fn closing_the_taskbar_asks_for_exactly_one_new_taskbar_without_tasks() {
    let mut app = shell();
    app.update(tick(Some(vec![window(5)])), 0);
    assert_eq!(app.taskbar().len(), 1);
    let old = app.taskbar().handle();
    let effects = app.update(Message::WindowClosed(old), 0);
    let windows = opened(&effects);
    assert_eq!(effects.len(), 1);
    assert_eq!(windows.len(), 1);
    assert_eq!(windows[0].1, WindowKind::Taskbar);
    assert_ne!(windows[0].0, old);
    assert_eq!(app.taskbar().handle(), windows[0].0);
    assert_eq!(app.taskbar().len(), 0);
    assert_eq!(app.desktop().id, WindowHandle(0));
}

#[test]
fn closing_a_menu_or_the_dialog_asks_for_no_window() {
    let (mut app, start, panel, power) = full();
    assert!(app.update(Message::WindowClosed(start), 0).is_empty());
    assert!(app.start_menu().is_none());
    assert!(app.panel_menu().is_some());
    assert!(app.update(Message::WindowClosed(panel), 0).is_empty());
    assert!(app.panel_menu().is_none());
    assert!(app.power_window().is_some());
    assert!(app.update(Message::WindowClosed(power), 0).is_empty());
    assert!(app.power_window().is_none());
}

#[test]
fn closing_an_unknown_window_changes_nothing() {
    let (mut app, start, panel, power) = full();
    assert!(app.update(Message::WindowClosed(WindowHandle(999)), 0).is_empty());
    assert_eq!(app.window_kind(start), Some(WindowKind::StartMenu));
    assert_eq!(app.window_kind(panel), Some(WindowKind::PanelMenu));
    assert_eq!(app.window_kind(power), Some(WindowKind::PowerWindow));
    assert_eq!(app.desktop().id, WindowHandle(0));
}

#[test]
fn repeated_closes_never_reuse_a_handle() {
    let mut app = shell();
    let mut seen = vec![WindowHandle(0), WindowHandle(1)];
    for _ in 0..5 {
        let desktop = app.desktop().id;
        let effects = app.update(Message::WindowClosed(desktop), 0);
        let handle = opened(&effects)[0].0;
        assert!(!seen.contains(&handle));
        seen.push(handle);
        let bar = app.taskbar().handle();
        let effects = app.update(Message::WindowClosed(bar), 0);
        let handle = opened(&effects)[0].0;
        assert!(!seen.contains(&handle));
        seen.push(handle);
    }
}

#[test]
fn open_messages_replace_a_stale_controller() {
    let mut app = shell();
    let first = opened(&app.update(Message::OpenStartMenu, 0));
    assert_eq!(first.len(), 1);
    assert_eq!(first[0].1, WindowKind::StartMenu);
    app.update(Message::StartMenu(StartMessage::SwitchToTab(StartMenuTab::Applications)), 0);
    assert_eq!(app.start_menu().unwrap().tab(), StartMenuTab::Applications);
    let second = opened(&app.update(Message::OpenStartMenu, 0));
    assert_ne!(second[0].0, first[0].0);
    assert_eq!(app.start_menu().unwrap().handle(), second[0].0);
    assert_eq!(app.start_menu().unwrap().tab(), StartMenuTab::Tiles);
    assert_eq!(app.window_kind(first[0].0), None);
}

#[test]
fn open_power_window_starts_the_countdown_now() {
    let mut app = shell();
    let effects = app.update(Message::OpenPowerWindow(PowerOptions::Reboot), 5_000);
    let windows = opened(&effects);
    assert_eq!(windows[0].1, WindowKind::PowerWindow);
    let dialog = app.power_window().unwrap();
    assert_eq!(dialog.id, windows[0].0);
    assert_eq!(dialog.time, 5_000);
    assert_eq!(dialog.target, PowerOptions::Reboot);
    assert_eq!(dialog.state, Countdown::Active);
}

#[test]
fn window_opened_tells_the_owner() {
    let (mut app, start, panel, power) = full();
    assert!(matches!(
        app.update(Message::WindowOpened(WindowHandle(1)), 0)[..],
        [
            Effect::DockAtTop(WindowHandle(1)),
            Effect::QueryMonitorSize(WindowHandle(1), WindowKind::Taskbar)
        ]
    ));
    assert!(matches!(
        app.update(Message::WindowOpened(WindowHandle(0)), 0)[..],
        [Effect::SetNoActivate(WindowHandle(0)), Effect::PinToBottom(WindowHandle(0))]
    ));
    match &app.update(Message::WindowOpened(start), 0)[..] {
        [Effect::LoadStartMenu(handle)] => assert_eq!(*handle, start),
        other => panic!("unexpected effects {:?}", other),
    }
    match &app.update(Message::WindowOpened(panel), 0)[..] {
        [Effect::QueryMonitorSize(handle, WindowKind::PanelMenu)] => assert_eq!(*handle, panel),
        other => panic!("unexpected effects {:?}", other),
    }
    assert!(app.update(Message::WindowOpened(power), 9_000).is_empty());
    assert_eq!(app.power_window().unwrap().time, 9_000);
    assert!(app.update(Message::WindowOpened(WindowHandle(999)), 0).is_empty());
}

#[test]
fn lost_focus_dismisses_the_menus_and_cancels_the_dialog() {
    let (mut app, start, panel, power) = full();
    match &app.update(Message::WindowLostFocus(start), 0)[..] {
        [Effect::CloseWindow(handle)] => assert_eq!(*handle, start),
        other => panic!("unexpected effects {:?}", other),
    }
    assert!(app.start_menu().is_some());
    match &app.update(Message::WindowLostFocus(panel), 0)[..] {
        [Effect::CloseWindow(handle)] => assert_eq!(*handle, panel),
        other => panic!("unexpected effects {:?}", other),
    }
    match &app.update(Message::WindowLostFocus(power), 0)[..] {
        [Effect::CloseWindow(handle)] => assert_eq!(*handle, power),
        other => panic!("unexpected effects {:?}", other),
    }
    assert_eq!(app.power_window().unwrap().state, Countdown::Cancelled);
    assert!(app.update(Message::WindowLostFocus(WindowHandle(0)), 0).is_empty());
    assert!(app.update(Message::WindowLostFocus(WindowHandle(1)), 0).is_empty());
    assert!(app.update(Message::WindowLostFocus(WindowHandle(999)), 0).is_empty());
}

#[test]
fn caught_focus_pins_only_the_desktop_down() {
    let (mut app, start, _, _) = full();
    assert!(matches!(
        app.update(Message::WindowCaughtFocus(WindowHandle(0)), 0)[..],
        [Effect::PinToBottom(WindowHandle(0))]
    ));
    assert!(app.update(Message::WindowCaughtFocus(WindowHandle(1)), 0).is_empty());
    assert!(app.update(Message::WindowCaughtFocus(start), 0).is_empty());
}

#[test]
fn window_close_closes_only_the_start_menu() {
    let (mut app, start, panel, _) = full();
    match &app.update(Message::WindowClose(start), 0)[..] {
        [Effect::CloseWindow(handle)] => assert_eq!(*handle, start),
        other => panic!("unexpected effects {:?}", other),
    }
    assert!(app.update(Message::WindowClose(panel), 0).is_empty());
    assert!(app.update(Message::WindowClose(WindowHandle(0)), 0).is_empty());
}

#[test]
fn messages_for_a_closed_menu_are_dropped() {
    let mut app = shell();
    assert!(app
        .update(Message::StartMenu(StartMessage::PinToTiles("a".to_string())), 0)
        .is_empty());
    assert!(app.update(Message::PanelMenu(PanelMessage::Init), 0).is_empty());
    assert!(app.update(Message::PowerMenu(PowerMenuMessage::Execute(PowerOptions::Lock)), 0).is_empty());
    assert!(app.start_menu().is_none());
}

#[test]
fn messages_reach_their_controller() {
    let (mut app, start, panel, _) = full();
    let load = StartMenuLoad { settings: None, user_programs: None, system_programs: None };
    match &app.update(Message::StartMenu(StartMessage::Init(load)), 0)[..] {
        [Effect::QueryMonitorSize(handle, WindowKind::StartMenu)] => assert_eq!(*handle, start),
        other => panic!("unexpected effects {:?}", other),
    }
    let monitor = Size { width: 2000, height: 1000 };
    match &app.update(Message::PanelMenu(PanelMessage::Resize(Some(monitor))), 0)[..] {
        [Effect::Resize(handle, extent), Effect::MoveTo(_, point)] => {
            assert_eq!(*handle, panel);
            assert_eq!(*extent, Extent { width: 1_200_000, height: 800_000 });
            assert_eq!(*point, Point { x: 2_792_000, y: 100_000 });
        }
        other => panic!("unexpected effects {:?}", other),
    }
    assert!(matches!(
        app.update(Message::PowerMenu(PowerMenuMessage::Execute(PowerOptions::Lock)), 0)[..],
        [Effect::PowerAction(PowerOptions::Lock)]
    ));
    assert!(matches!(
        app.update(Message::Taskbar(TaskbarMessage::FocusWindow(4)), 0)[..],
        [Effect::FocusTask(4)]
    ));
    assert!(matches!(
        app.update(Message::Desktop(DesktopMessage::KeepAtBottom), 0)[..],
        [Effect::PinToBottom(WindowHandle(0))]
    ));
}

#[test]
fn tick_refreshes_the_devices_counts_down_and_reconciles() {
    let mut app = shell();
    app.update(Message::OpenPowerWindow(PowerOptions::LogOff), 1_000);
    let readings = Readings {
        battery: Some(Battery { level: 555, charging: true }),
        wifi: WifiStatus::Connected("home".to_string(), 80),
        volume: Some(Volume { level: 250, muted: true }),
    };
    let effects = app.update(
        Message::Tick(TickData { readings, windows: Some(vec![window(9), window(3)]) }),
        31_000,
    );
    match &effects[..] {
        [Effect::PowerAction(PowerOptions::LogOff), Effect::ExtractIcon(first), Effect::ExtractIcon(second)] =>
        {
            assert_eq!(first.id, 9);
            assert_eq!(second.id, 3);
        }
        other => panic!("unexpected effects {:?}", other),
    }
    assert_eq!(app.snapshot().battery, Some(Battery { level: 555, charging: true }));
    assert!(matches!(app.snapshot().wifi_status, WifiStatus::Connected(_, 80)));
    assert_eq!(app.snapshot().volume, Volume { level: 250, muted: true });
    assert_eq!(app.power_window().unwrap().state, Countdown::Fired);
    assert_eq!(app.taskbar().len(), 2);
}

#[test]
fn tick_before_the_threshold_does_not_fire() {
    let mut app = shell();
    app.update(Message::OpenPowerWindow(PowerOptions::Shutdown), 1_000);
    assert!(app.update(tick(Some(vec![])), 30_900).is_empty());
    assert_eq!(app.power_window().unwrap().state, Countdown::Active);
    assert_eq!(app.update(tick(Some(vec![])), 31_100).len(), 1);
}

#[test]
fn failed_readings_fall_back_field_by_field() {
    let mut app = shell();
    app.update(
        Message::Tick(TickData {
            readings: Readings {
                battery: Some(Battery { level: 100, charging: false }),
                wifi: WifiStatus::Ethernet,
                volume: Some(Volume { level: 700, muted: false }),
            },
            windows: Some(vec![window(1)]),
        }),
        0,
    );
    app.update(
        Message::Tick(TickData {
            readings: Readings { battery: None, wifi: WifiStatus::Ethernet, volume: None },
            windows: None,
        }),
        100,
    );
    assert_eq!(app.snapshot().battery, None);
    assert!(matches!(app.snapshot().wifi_status, WifiStatus::Ethernet));
    assert_eq!(app.snapshot().volume, Volume { level: 0, muted: false });
    assert_eq!(app.taskbar().len(), 0);
}

#[test]
fn volume_messages_set_the_output() {
    let mut app = shell();
    app.update(
        Message::Tick(TickData {
            readings: Readings {
                battery: None,
                wifi: WifiStatus::Disconnected,
                volume: Some(Volume { level: 300, muted: true }),
            },
            windows: Some(vec![]),
        }),
        0,
    );
    assert!(matches!(
        app.update(Message::VolumeChange(450), 0)[..],
        [Effect::SetVolume { level: 450, muted: true }]
    ));
    assert!(matches!(
        app.update(Message::VolumeChange(4_000), 0)[..],
        [Effect::SetVolume { level: 1000, muted: true }]
    ));
    assert!(matches!(
        app.update(Message::VolumeMute, 0)[..],
        [Effect::SetVolume { level: 300, muted: false }]
    ));
    assert_eq!(app.snapshot().volume, Volume { level: 300, muted: true });
}

#[test]
fn idle_messages_do_nothing() {
    let mut app = shell();
    assert!(app.update(Message::Nothing, 0).is_empty());
    assert!(app.update(Message::MetaPressed, 0).is_empty());
    assert!(app.update(Message::ResizeContext(Size { width: 1, height: 1 }), 0).is_empty());
}

#[test]
fn titles_and_kinds() {
    let (app, start, panel, power) = full();
    assert_eq!(app.title(WindowHandle(1)), "FrostWin Taskbar");
    assert_eq!(app.title(WindowHandle(0)), "FrostWin Desktop");
    assert_eq!(app.title(start), "FrostWin StartMenu");
    assert_eq!(app.title(panel), "FrostWin PanelMenu");
    assert_eq!(app.title(power), "FrostWin Unknown");
    assert_eq!(app.title(WindowHandle(999)), "FrostWin Unknown");
    assert_eq!(app.window_kind(WindowHandle(1)), Some(WindowKind::Taskbar));
    assert_eq!(app.window_kind(WindowHandle(0)), Some(WindowKind::Desktop));
    assert_eq!(app.window_kind(WindowHandle(999)), None);
}

#[test]
fn buttons_open_a_menu_unless_it_is_open() {
    let mut app = shell();
    assert!(matches!(app.start_button(), Message::OpenStartMenu));
    assert!(matches!(app.panel_button(), Message::OpenPanelMenu));
    app.update(Message::OpenStartMenu, 0);
    assert!(matches!(app.start_button(), Message::Nothing));
    assert!(matches!(app.panel_button(), Message::OpenPanelMenu));
    app.update(Message::OpenPanelMenu, 0);
    assert!(matches!(app.panel_button(), Message::Nothing));
}

#[test]
fn window_events_become_messages() {
    let id = WindowHandle(3);
    assert!(matches!(window_message(id, WindowEvent::Closed), Message::WindowClosed(WindowHandle(3))));
    assert!(matches!(
        window_message(id, WindowEvent::Unfocused),
        Message::WindowLostFocus(WindowHandle(3))
    ));
    assert!(matches!(
        window_message(id, WindowEvent::Focused),
        Message::WindowCaughtFocus(WindowHandle(3))
    ));
    assert!(matches!(window_message(id, WindowEvent::Other), Message::Nothing));
}

#[test]
fn desktop_and_panel_controllers() {
    let (mut desktop, open) = Desktop::new(WindowHandle(4));
    assert!(matches!(
        open,
        Effect::OpenWindow { handle: WindowHandle(4), kind: WindowKind::Desktop, .. }
    ));
    assert!(matches!(
        desktop.update(DesktopMessage::Init)[..],
        [Effect::SetNoActivate(WindowHandle(4)), Effect::PinToBottom(WindowHandle(4))]
    ));
    assert_eq!(desktop.id, WindowHandle(4));
    let (mut panel, open) = PanelMenu::new(WindowHandle(6));
    assert!(matches!(
        open,
        Effect::OpenWindow { handle: WindowHandle(6), kind: WindowKind::PanelMenu, .. }
    ));
    assert!(matches!(
        panel.update(PanelMessage::Init)[..],
        [Effect::QueryMonitorSize(WindowHandle(6), WindowKind::PanelMenu)]
    ));
    assert!(panel.update(PanelMessage::Resize(None)).is_empty());
}
