use frostwin::effect::Effect;
use frostwin::power::{Countdown, PowerMenuMessage, PowerOptions, PowerWindow, COUNTDOWN_MS};
use frostwin::window::{WindowHandle, WindowKind, WindowLevel, WindowPosition, Size};

fn dialog(target: PowerOptions) -> PowerWindow {
    PowerWindow::new(WindowHandle(7), target, 1_000).0
}

#[test]
fn new_dialog_counts_down_and_asks_for_its_window() {
    let (window, open) = PowerWindow::new(WindowHandle(7), PowerOptions::Reboot, 1_000);
    assert_eq!(window.id, WindowHandle(7));
    assert_eq!(window.time, 1_000);
    assert_eq!(window.target, PowerOptions::Reboot);
    assert_eq!(window.state, Countdown::Active);
    match open {
        Effect::OpenWindow { handle, kind, settings } => {
            assert_eq!(handle, WindowHandle(7));
            assert_eq!(kind, WindowKind::PowerWindow);
            assert_eq!(settings.level, WindowLevel::AlwaysOnTop);
            assert_eq!(settings.position, WindowPosition::Centered);
            assert_eq!(settings.size, Some(Size { width: 500, height: 300 }));
            assert!(!settings.decorations);
            assert!(!settings.fullscreen);
        }
        other => panic!("unexpected effect {:?}", other),
    }
}

#[test]
fn countdown_fires_on_the_tick_that_reaches_thirty_seconds() {
    let mut window = dialog(PowerOptions::Shutdown);
    let early = window.update(PowerMenuMessage::Tick(1_000 + 29_900));
    assert!(early.is_empty());
    assert_eq!(window.state, Countdown::Active);
    let late = window.update(PowerMenuMessage::Tick(1_000 + 30_100));
    assert_eq!(late.len(), 1);
    assert!(matches!(late[0], Effect::PowerAction(PowerOptions::Shutdown)));
    assert_eq!(window.state, Countdown::Fired);
}

#[test]
fn countdown_fires_at_exactly_thirty_seconds() {
    let mut window = dialog(PowerOptions::LogOff);
    assert!(window.update(PowerMenuMessage::Tick(1_000 + COUNTDOWN_MS - 1)).is_empty());
    let fired = window.update(PowerMenuMessage::Tick(1_000 + COUNTDOWN_MS));
    assert!(matches!(fired[..], [Effect::PowerAction(PowerOptions::LogOff)]));
}

#[test]
fn countdown_fires_once() {
    let mut window = dialog(PowerOptions::Lock);
    assert_eq!(window.update(PowerMenuMessage::Tick(40_000)).len(), 1);
    assert!(window.update(PowerMenuMessage::Tick(40_100)).is_empty());
    assert_eq!(window.state, Countdown::Fired);
}

#[test]
fn many_small_ticks_do_not_fire_early() {
    let mut window = dialog(PowerOptions::Shutdown);
    let mut now = 1_000;
    while now < 1_000 + COUNTDOWN_MS {
        assert!(window.update(PowerMenuMessage::Tick(now)).is_empty());
        now += 100;
    }
    assert_eq!(window.update(PowerMenuMessage::Tick(now)).len(), 1);
}

#[test]
fn clock_before_the_start_counts_as_no_time() {
    let mut window = dialog(PowerOptions::Shutdown);
    assert!(window.update(PowerMenuMessage::Tick(10)).is_empty());
    assert_eq!(window.elapsed(10), 0);
    assert_eq!(window.remaining_seconds(10), 30);
}

#[test]
fn init_restarts_the_countdown() {
    let mut window = dialog(PowerOptions::Shutdown);
    assert!(window.update(PowerMenuMessage::Init(20_000)).is_empty());
    assert_eq!(window.time, 20_000);
    assert!(window.update(PowerMenuMessage::Tick(31_500)).is_empty());
    assert_eq!(window.update(PowerMenuMessage::Tick(50_000)).len(), 1);
}

#[test]
fn cancel_closes_the_window_and_stops_the_countdown() {
    let mut window = dialog(PowerOptions::Shutdown);
    let effects = window.update(PowerMenuMessage::Cancel);
    assert!(matches!(effects[..], [Effect::CloseWindow(WindowHandle(7))]));
    assert_eq!(window.state, Countdown::Cancelled);
    assert!(window.update(PowerMenuMessage::Tick(100_000)).is_empty());
    assert_eq!(window.state, Countdown::Cancelled);
}

#[test]
fn execute_hands_the_chosen_action_to_the_host() {
    let mut window = dialog(PowerOptions::Shutdown);
    let effects = window.update(PowerMenuMessage::Execute(PowerOptions::Lock));
    assert!(matches!(effects[..], [Effect::PowerAction(PowerOptions::Lock)]));
    assert_eq!(window.state, Countdown::Active);
}

#[test]
fn success_ends_the_process_except_for_lock() {
    for option in [PowerOptions::Shutdown, PowerOptions::Reboot, PowerOptions::LogOff] {
        let mut window = dialog(option);
        let effects = window.update(PowerMenuMessage::Completed(option, true));
        assert!(matches!(effects[..], [Effect::Exit]));
    }
    let mut window = dialog(PowerOptions::Lock);
    assert!(window.update(PowerMenuMessage::Completed(PowerOptions::Lock, true)).is_empty());
}

#[test]
fn failure_keeps_the_dialog_and_lets_the_countdown_try_again() {
    let mut window = dialog(PowerOptions::Shutdown);
    assert_eq!(window.update(PowerMenuMessage::Tick(40_000)).len(), 1);
    assert_eq!(window.state, Countdown::Fired);
    let effects = window.update(PowerMenuMessage::Completed(PowerOptions::Shutdown, false));
    assert!(effects.is_empty());
    assert_eq!(window.state, Countdown::Active);
    let again = window.update(PowerMenuMessage::Tick(40_100));
    assert!(matches!(again[..], [Effect::PowerAction(PowerOptions::Shutdown)]));
}

#[test]
fn failure_of_a_chosen_action_leaves_a_running_countdown_alone() {
    let mut window = dialog(PowerOptions::Shutdown);
    let effects = window.update(PowerMenuMessage::Completed(PowerOptions::Lock, false));
    assert!(effects.is_empty());
    assert_eq!(window.state, Countdown::Active);
}

#[test]
fn remaining_seconds_count_down_from_thirty() {
    let window = dialog(PowerOptions::Shutdown);
    assert_eq!(window.remaining_seconds(1_000), 30);
    assert_eq!(window.remaining_seconds(1_999), 30);
    assert_eq!(window.remaining_seconds(2_000), 29);
    assert_eq!(window.remaining_seconds(30_999), 1);
    assert_eq!(window.remaining_seconds(31_000), 0);
    assert_eq!(window.remaining_seconds(500_000), 0);
    assert_eq!(window.elapsed(31_000), 30_000);
}

#[test]
fn labels() {
    assert_eq!(PowerOptions::Shutdown.label(), "Shutting down");
    assert_eq!(PowerOptions::Lock.label(), "Locking");
    assert_eq!(PowerOptions::Reboot.label(), "Rebooting");
    assert_eq!(PowerOptions::LogOff.label(), "Logging Off");
    assert!(PowerOptions::Shutdown.ends_session());
    assert!(!PowerOptions::Lock.ends_session());
}
