use frostwin::device::{
    battery_decile, battery_step, clamp_volume, get_battery_info, get_ethernet_status,
    get_wifi_status, network_code, network_label, percent, volume_bars, wifi_tier, Battery, BatteryState,
    DeviceSnapshot, NetworkAdapter, Readings, Volume, WifiStatus,
};
use frostwin::raw_icons::{battery_icon, sound_icon, start_icon, wifi_icon};
use frostwin::windows_icons::{pixel_buffer_len, swap_red_blue};
use frostwin::window::{
    panel_menu_layout, start_menu_layout, taskbar_layout, Extent, Point, Size, WindowKind,
    WindowLevel, WindowPosition, WindowSettings, UNITS_PER_PIXEL,
};

fn connected(strength: u32) -> WifiStatus {
    WifiStatus::Connected("home".to_string(), strength)
}

#[test]
fn volume_bucket_boundaries() {
    assert_eq!(volume_bars(380), 2);
    assert_eq!(volume_bars(400), 3);
}

#[test]
fn volume_buckets() {
    assert_eq!(volume_bars(0), 1);
    assert_eq!(volume_bars(149), 1);
    assert_eq!(volume_bars(150), 2);
    assert_eq!(volume_bars(399), 2);
    assert_eq!(volume_bars(649), 3);
    assert_eq!(volume_bars(650), 4);
    assert_eq!(volume_bars(899), 4);
    assert_eq!(volume_bars(900), 5);
    assert_eq!(volume_bars(1000), 5);
    assert_eq!(volume_bars(u16::MAX), 5);
}

#[test]
fn mute_overrides_the_bucket() {
    for level in [0, 149, 150, 380, 400, 650, 900, 1000] {
        assert_eq!(sound_icon(level, true), "icons/sound/SoundM.png");
    }
}

#[test]
fn sound_pictures() {
    assert_eq!(sound_icon(0, false), "icons/sound/Sound0.png");
    assert_eq!(sound_icon(380, false), "icons/sound/Sound1.png");
    assert_eq!(sound_icon(400, false), "icons/sound/Sound2.png");
    assert_eq!(sound_icon(650, false), "icons/sound/Sound3.png");
    assert_eq!(sound_icon(900, false), "icons/sound/Sound4.png");
}

#[test]
fn wifi_tier_boundaries() {
    assert_eq!(wifi_tier(64), 2);
    assert_eq!(wifi_tier(65), 3);
}

#[test]
fn wifi_tiers() {
    assert_eq!(wifi_tier(0), 0);
    assert_eq!(wifi_tier(14), 0);
    assert_eq!(wifi_tier(15), 1);
    assert_eq!(wifi_tier(39), 1);
    assert_eq!(wifi_tier(40), 2);
    assert_eq!(wifi_tier(89), 3);
    assert_eq!(wifi_tier(90), 4);
    assert_eq!(wifi_tier(100), 4);
    assert_eq!(wifi_tier(u32::MAX), 4);
}

#[test]
fn ethernet_overrides_wireless() {
    let wired = vec![NetworkAdapter { ethernet: true, up: true }];
    for strength in [0, 64, 65, 100] {
        assert!(matches!(get_wifi_status(connected(strength), &wired), WifiStatus::Ethernet));
    }
    assert!(matches!(get_wifi_status(WifiStatus::Disconnected, &wired), WifiStatus::Ethernet));
}

#[test]
fn wireless_shows_without_a_wired_link() {
    let adapters = vec![
        NetworkAdapter { ethernet: true, up: false },
        NetworkAdapter { ethernet: false, up: true },
    ];
    match get_wifi_status(connected(64), &adapters) {
        WifiStatus::Connected(ssid, strength) => {
            assert_eq!(ssid, "home");
            assert_eq!(strength, 64);
        }
        other => panic!("unexpected status {:?}", other),
    }
    assert!(matches!(get_wifi_status(WifiStatus::Disconnected, &vec![]), WifiStatus::Disconnected));
}

#[test]
fn ethernet_status_needs_a_wired_adapter_that_is_up() {
    assert!(!get_ethernet_status(&vec![]));
    assert!(!get_ethernet_status(&vec![NetworkAdapter { ethernet: true, up: false }]));
    assert!(!get_ethernet_status(&vec![NetworkAdapter { ethernet: false, up: true }]));
    assert!(get_ethernet_status(&vec![
        NetworkAdapter { ethernet: false, up: true },
        NetworkAdapter { ethernet: true, up: false },
        NetworkAdapter { ethernet: true, up: true },
    ]));
}

#[test]
fn network_codes_and_labels() {
    assert_eq!(network_code(&connected(64)), 2);
    assert_eq!(network_code(&connected(65)), 3);
    assert_eq!(network_code(&WifiStatus::Ethernet), -1);
    assert_eq!(network_code(&WifiStatus::Disconnected), -2);
    assert_eq!(network_label(&connected(10)), "home");
    assert_eq!(network_label(&WifiStatus::Ethernet), "Ethernet");
    assert_eq!(network_label(&WifiStatus::Disconnected), "Not Connected");
}

#[test]
fn network_pictures() {
    assert_eq!(wifi_icon(&WifiStatus::Disconnected), "icons/network/NoInternet.png");
    assert_eq!(wifi_icon(&WifiStatus::Ethernet), "icons/network/EthernetIcon.png");
    assert_eq!(wifi_icon(&connected(95)), "icons/network/WifiIcon4.png");
    assert_eq!(wifi_icon(&connected(65)), "icons/network/WifiIcon3.png");
    assert_eq!(wifi_icon(&connected(64)), "icons/network/WifiIcon2.png");
    assert_eq!(wifi_icon(&connected(15)), "icons/network/WifiIcon1.png");
    assert_eq!(wifi_icon(&connected(14)), "icons/network/WifiIcon0.png");
}

#[test]
fn battery_reading() {
    assert_eq!(get_battery_info(None), Battery { level: 0, charging: false });
    assert_eq!(
        get_battery_info(Some((873, BatteryState::Charging))),
        Battery { level: 873, charging: true }
    );
    assert_eq!(
        get_battery_info(Some((1000, BatteryState::Full))),
        Battery { level: 1000, charging: true }
    );
    for state in [BatteryState::Discharging, BatteryState::Empty, BatteryState::Unknown] {
        assert_eq!(get_battery_info(Some((420, state))), Battery { level: 420, charging: false });
    }
}

#[test]
fn battery_steps_and_deciles() {
    assert_eq!(battery_step(0), 0);
    assert_eq!(battery_step(24), 0);
    assert_eq!(battery_step(25), 1);
    assert_eq!(battery_step(500), 10);
    assert_eq!(battery_step(1000), 20);
    assert_eq!(battery_step(u16::MAX), 1311);
    assert_eq!(battery_decile(0), 10);
    assert_eq!(battery_decile(149), 10);
    assert_eq!(battery_decile(150), 20);
    assert_eq!(battery_decile(849), 80);
    assert_eq!(battery_decile(850), 90);
    assert_eq!(battery_decile(949), 90);
    assert_eq!(battery_decile(950), 100);
    assert_eq!(battery_decile(1000), 100);
    assert_eq!(battery_decile(u16::MAX), 100);
}

#[test]
fn battery_pictures() {
    assert_eq!(battery_icon(false, 1000), "icons/battery/Battery100.png");
    assert_eq!(battery_icon(false, 949), "icons/battery/Battery90.png");
    assert_eq!(battery_icon(false, 550), "icons/battery/Battery60.png");
    assert_eq!(battery_icon(false, 149), "icons/battery/Battery10.png");
    assert_eq!(battery_icon(true, 950), "icons/battery/BatteryC100.png");
    assert_eq!(battery_icon(true, 250), "icons/battery/BatteryC30.png");
    assert_eq!(battery_icon(true, 0), "icons/battery/BatteryC10.png");
}

#[test]
fn start_pictures() {
    assert_eq!(start_icon(true), "icons/startIcon/StartIconOpen.png");
    assert_eq!(start_icon(false), "icons/startIcon/StartIconClosed.png");
}

#[test]
fn volume_is_clamped_to_full() {
    assert_eq!(clamp_volume(0), 0);
    assert_eq!(clamp_volume(1000), 1000);
    assert_eq!(clamp_volume(1001), 1000);
    assert_eq!(clamp_volume(u16::MAX), 1000);
}

#[test]
fn snapshot_follows_each_reading_on_its_own() {
    let mut snapshot = DeviceSnapshot::new();
    assert_eq!(snapshot.battery, None);
    assert!(matches!(snapshot.wifi_status, WifiStatus::Disconnected));
    assert_eq!(snapshot.volume, Volume { level: 0, muted: false });
    snapshot.refresh(Readings {
        battery: Some(Battery { level: 800, charging: true }),
        wifi: connected(70),
        volume: Some(Volume { level: 300, muted: true }),
    });
    assert_eq!(snapshot.battery, Some(Battery { level: 800, charging: true }));
    assert!(matches!(snapshot.wifi_status, WifiStatus::Connected(_, 70)));
    assert_eq!(snapshot.volume, Volume { level: 300, muted: true });
    snapshot.refresh(Readings { battery: None, wifi: WifiStatus::Ethernet, volume: None });
    assert_eq!(snapshot.battery, None);
    assert!(matches!(snapshot.wifi_status, WifiStatus::Ethernet));
    assert_eq!(snapshot.volume, Volume { level: 0, muted: false });
    snapshot.refresh(Readings {
        battery: None,
        wifi: WifiStatus::Ethernet,
        volume: Some(Volume { level: 10, muted: false }),
    });
    assert_eq!(snapshot.volume, Volume { level: 10, muted: false });
}

#[test]
fn layouts_are_multiples_of_the_monitor_width() {
    let monitor = Size { width: 2000, height: 1125 };
    let bar = taskbar_layout(monitor);
    assert_eq!(bar.size, Extent { width: 1992 * UNITS_PER_PIXEL, height: 42 * UNITS_PER_PIXEL });
    assert_eq!(bar.position, Point { x: 4 * UNITS_PER_PIXEL, y: 4 * UNITS_PER_PIXEL });
    let menu = start_menu_layout(monitor);
    assert_eq!(menu.size, Extent { width: 600 * UNITS_PER_PIXEL, height: 800 * UNITS_PER_PIXEL });
    assert_eq!(menu.position, Point { x: 4 * UNITS_PER_PIXEL, y: 50 * UNITS_PER_PIXEL });
    let panel = panel_menu_layout(monitor);
    assert_eq!(panel.size, Extent { width: 600 * UNITS_PER_PIXEL, height: 400 * UNITS_PER_PIXEL });
    assert_eq!(panel.position, Point { x: 1396 * UNITS_PER_PIXEL, y: 50 * UNITS_PER_PIXEL });
}

#[test]
fn layouts_of_the_widest_and_of_no_monitor() {
    let widest = taskbar_layout(Size { width: u32::MAX, height: 0 });
    assert_eq!(widest.size.width, u32::MAX as u64 * 1992);
    let none = panel_menu_layout(Size { width: 0, height: 0 });
    assert_eq!(none.size, Extent { width: 0, height: 0 });
    assert_eq!(none.position, Point { x: 0, y: 0 });
}

#[test]
fn window_settings_by_kind() {
    let desktop = WindowSettings::for_kind(WindowKind::Desktop);
    assert!(desktop.fullscreen);
    assert!(!desktop.transparent);
    assert_eq!(desktop.level, WindowLevel::AlwaysOnBottom);
    assert_eq!(desktop.size, None);
    let bar = WindowSettings::for_kind(WindowKind::Taskbar);
    assert_eq!(bar.level, WindowLevel::Normal);
    assert_eq!(bar.position, WindowPosition::Specific(0, 0));
    let menu = WindowSettings::for_kind(WindowKind::StartMenu);
    assert_eq!(menu.position, WindowPosition::Specific(2, 37));
    assert_eq!(menu.size, Some(Size { width: 400, height: 600 }));
    assert_eq!(menu.level, WindowLevel::AlwaysOnTop);
    let panel = WindowSettings::for_kind(WindowKind::PanelMenu);
    assert_eq!(panel.position, WindowPosition::Specific(1118, 37));
    for kind in [
        WindowKind::Taskbar,
        WindowKind::Desktop,
        WindowKind::StartMenu,
        WindowKind::PanelMenu,
        WindowKind::PowerWindow,
    ] {
        let settings = WindowSettings::for_kind(kind);
        assert!(!settings.decorations);
        assert!(!settings.resizable);
        assert!(!settings.closeable);
        assert!(!settings.minimizable);
    }
}

#[test]
fn red_and_blue_change_places() {
    let mut pixels = vec![1, 2, 3, 4, 5, 6, 7, 8];
    swap_red_blue(&mut pixels);
    assert_eq!(pixels, vec![3, 2, 1, 4, 7, 6, 5, 8]);
}

#[test]
fn bytes_after_the_last_whole_pixel_stay() {
    let mut pixels = vec![1, 2, 3, 4, 5, 6, 7];
    swap_red_blue(&mut pixels);
    assert_eq!(pixels, vec![3, 2, 1, 4, 5, 6, 7]);
    let mut none: Vec<u8> = vec![];
    swap_red_blue(&mut none);
    assert!(none.is_empty());
}

#[test]
fn pixel_buffer_sizes() {
    assert_eq!(pixel_buffer_len(32, 32), Some(4096));
    assert_eq!(pixel_buffer_len(0, 32), Some(0));
    assert_eq!(pixel_buffer_len(48, 48), Some(9216));
}

#[test]
fn percent_rounds_to_the_nearest_whole() {
    assert_eq!(percent(0), 0);
    assert_eq!(percent(4), 0);
    assert_eq!(percent(5), 1);
    assert_eq!(percent(874), 87);
    assert_eq!(percent(875), 88);
    assert_eq!(percent(1000), 100);
    assert_eq!(percent(u16::MAX), 6554);
}
