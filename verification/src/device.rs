//! What the shell knows of the machine's devices: the battery, the network
//! link and the audio output, as the host last read them.

use vstd::prelude::*;
use vstd::string::StringExecFns;

verus! {

/// The network link. `Connected` carries the wireless network's name and its
/// signal quality, from 0 to 100.
#[derive(Debug)]
pub enum WifiStatus {
    Disconnected,
    Connected(String, u32),
    Ethernet,
}

pub enum WifiStatusView {
    Disconnected,
    Connected(Seq<char>, u32),
    Ethernet,
}

impl View for WifiStatus {
    type V = WifiStatusView;

    open spec fn view(&self) -> WifiStatusView {
        match *self {
            WifiStatus::Disconnected => WifiStatusView::Disconnected,
            WifiStatus::Connected(ssid, strength) => WifiStatusView::Connected(ssid@, strength),
            WifiStatus::Ethernet => WifiStatusView::Ethernet,
        }
    }
}

impl Clone for WifiStatus {
    fn clone(&self) -> (copy: Self)
        ensures
            copy@ == self@,
    {
        match self {
            WifiStatus::Disconnected => WifiStatus::Disconnected,
            WifiStatus::Connected(ssid, strength) => WifiStatus::Connected(ssid.clone(), *strength),
            WifiStatus::Ethernet => WifiStatus::Ethernet,
        }
    }
}

/// The battery: its charge in tenths of a percent, from 0 to 1000, and
/// whether it is on the charger.
#[derive(Clone, Copy, Debug, PartialEq, Eq, Structural)]
pub struct Battery {
    pub level: u16,
    pub charging: bool,
}

/// The audio output: its volume in thousandths of full volume, from 0 to
/// 1000, and the mute switch.
#[derive(Clone, Copy, Debug, PartialEq, Eq, Structural)]
pub struct Volume {
    pub level: u16,
    pub muted: bool,
}

/// The whole percent nearest to `level` thousandths, halves rounded up.
pub open spec fn spec_percent(level: u16) -> int {
    (level + 5) / 10
}

pub fn percent(level: u16) -> (rounded: u16)
    ensures
        rounded == spec_percent(level),
{
    let wide: u32 = level as u32;
    ((wide + 5) / 10) as u16
}

/// What a battery reports of itself.
#[derive(Clone, Copy, Debug, PartialEq, Eq, Structural)]
pub enum BatteryState {
    Unknown,
    Charging,
    Discharging,
    Empty,
    Full,
}

/// One network adapter of the machine: whether it is a wired Ethernet
/// adapter, and whether its link is up.
#[derive(Clone, Copy, Debug, PartialEq, Eq, Structural)]
pub struct NetworkAdapter {
    pub ethernet: bool,
    pub up: bool,
}

/// The tier of a wireless signal of quality `strength`: one tier for each
/// of the thresholds 15, 40, 65 and 90 that the quality reaches.
pub open spec fn spec_wifi_tier(strength: u32) -> int {
    if strength >= 90 {
        4
    } else if strength >= 65 {
        3
    } else if strength >= 40 {
        2
    } else if strength >= 15 {
        1
    } else {
        0
    }
}

pub fn wifi_tier(strength: u32) -> (tier: u8)
    ensures
        tier == spec_wifi_tier(strength),
{
    if strength >= 90 {
        4
    } else if strength >= 65 {
        3
    } else if strength >= 40 {
        2
    } else if strength >= 15 {
        1
    } else {
        0
    }
}

/// The number by which the network icon tells one link state from another:
/// the tier of a wireless signal, -1 for a wired link, -2 for no link.
pub open spec fn spec_network_code(status: WifiStatusView) -> int {
    match status {
        WifiStatusView::Connected(_, strength) => spec_wifi_tier(strength),
        WifiStatusView::Ethernet => -1,
        WifiStatusView::Disconnected => -2,
    }
}

pub fn network_code(status: &WifiStatus) -> (code: i32)
    ensures
        code == spec_network_code(status@),
{
    match status {
        WifiStatus::Connected(_, strength) => {
            let tier: u8 = wifi_tier(*strength);
            tier as i32
        },
        WifiStatus::Ethernet => -1,
        WifiStatus::Disconnected => -2,
    }
}

/// The bucket of a volume of `level` thousandths: the first bucket lies
/// below 0.15, and one more is reached at each of 0.15, 0.40, 0.65 and 0.90,
/// each threshold belonging to the bucket above it.
pub open spec fn spec_volume_bars(level: u16) -> int {
    if level >= 900 {
        5
    } else if level >= 650 {
        4
    } else if level >= 400 {
        3
    } else if level >= 150 {
        2
    } else {
        1
    }
}

pub fn volume_bars(level: u16) -> (bars: u8)
    ensures
        bars == spec_volume_bars(level),
{
    if level >= 900 {
        5
    } else if level >= 650 {
        4
    } else if level >= 400 {
        3
    } else if level >= 150 {
        2
    } else {
        1
    }
}

/// The step of a battery charge of `level` tenths of a percent: the charge
/// rounded to the nearest multiple of five percent, counted in such
/// multiples.
pub open spec fn spec_battery_step(level: u16) -> int {
    (level + 25) / 50
}

pub fn battery_step(level: u16) -> (step: u16)
    ensures
        step == spec_battery_step(level),
{
    let wide: u32 = level as u32;
    ((wide + 25) / 50) as u16
}

/// The decile a battery image is drawn for: the charge rounded to the
/// nearest multiple of ten percent, but never less than ten nor more than a
/// hundred.
pub open spec fn spec_battery_decile(level: u16) -> int {
    let tens = (level + 50) / 100;
    if tens < 1 {
        10
    } else if tens > 10 {
        100
    } else {
        10 * tens
    }
}

pub fn battery_decile(level: u16) -> (decile: u8)
    ensures
        decile == spec_battery_decile(level),
{
    let wide: u32 = level as u32;
    let tens: u32 = (wide + 50) / 100;
    if tens < 1 {
        10
    } else if tens > 10 {
        100
    } else {
        (10 * tens) as u8
    }
}

/// Whether a battery in this state is shown as charging: one that charges
/// or is full.
pub open spec fn spec_counts_as_charging(state: BatteryState) -> bool {
    state is Charging || state is Full
}

/// The battery reading of a machine whose first battery, if it has one,
/// reports the charge `level` and the state `state`. A machine without a
/// battery reads as empty and not charging.
pub fn get_battery_info(first: Option<(u16, BatteryState)>) -> (battery: Battery)
    ensures
        battery == match first {
            Some((level, state)) => Battery { level, charging: spec_counts_as_charging(state) },
            None => Battery { level: 0, charging: false },
        },
{
    match first {
        Some((level, state)) => {
            let charging = match state {
                BatteryState::Charging => true,
                BatteryState::Full => true,
                _ => false,
            };
            Battery { level, charging }
        },
        None => Battery { level: 0, charging: false },
    }
}

/// Whether one of `adapters` is a wired adapter whose link is up.
pub open spec fn spec_ethernet_up(adapters: Seq<NetworkAdapter>) -> bool {
    exists|i: int| 0 <= i < adapters.len() && #[trigger] adapters[i].ethernet && adapters[i].up
}

pub fn get_ethernet_status(adapters: &Vec<NetworkAdapter>) -> (up: bool)
    ensures
        up == spec_ethernet_up(adapters@),
{
    let mut i: usize = 0;
    while i < adapters.len()
        invariant
            0 <= i <= adapters.len(),
            forall|j: int| 0 <= j < i ==> !(#[trigger] adapters@[j].ethernet && adapters@[j].up),
        decreases adapters.len() - i,
    {
        if adapters[i].ethernet && adapters[i].up {
            return true;
        }
        i = i + 1;
    }
    false
}

/// The link state of a machine: a wired link that is up hides whatever the
/// wireless adapter reports.
pub open spec fn spec_wifi_status(wireless: WifiStatusView, ethernet_up: bool) -> WifiStatusView {
    if ethernet_up {
        WifiStatusView::Ethernet
    } else {
        wireless
    }
}

pub fn get_wifi_status(wireless: WifiStatus, adapters: &Vec<NetworkAdapter>) -> (status: WifiStatus)
    ensures
        status@ == spec_wifi_status(wireless@, spec_ethernet_up(adapters@)),
{
    if get_ethernet_status(adapters) {
        WifiStatus::Ethernet
    } else {
        wireless
    }
}

/// The volume that is handed to the audio output when `level` thousandths
/// are asked for: no more than full volume.
pub open spec fn spec_clamp_volume(level: u16) -> u16 {
    if level > 1000 {
        1000
    } else {
        level
    }
}

#[verifier::when_used_as_spec(spec_clamp_volume)]
pub fn clamp_volume(level: u16) -> (clamped: u16)
    ensures
        clamped == spec_clamp_volume(level),
{
    if level > 1000 {
        1000
    } else {
        level
    }
}

/// What the link state is called in a tooltip.
pub open spec fn spec_network_label(status: WifiStatusView) -> Seq<char> {
    match status {
        WifiStatusView::Connected(ssid, _) => ssid,
        WifiStatusView::Ethernet => "Ethernet"@,
        WifiStatusView::Disconnected => "Not Connected"@,
    }
}

pub fn network_label(status: &WifiStatus) -> (label: String)
    ensures
        label@ == spec_network_label(status@),
{
    match status {
        WifiStatus::Connected(ssid, _) => ssid.clone(),
        WifiStatus::Ethernet => String::from_str("Ethernet"),
        WifiStatus::Disconnected => String::from_str("Not Connected"),
    }
}

/// What the host read on one tick. A reading that failed is `None`.
#[derive(Clone, Debug)]
pub struct Readings {
    pub battery: Option<Battery>,
    pub wifi: WifiStatus,
    pub volume: Option<Volume>,
}

pub struct ReadingsView {
    pub battery: Option<Battery>,
    pub wifi: WifiStatusView,
    pub volume: Option<Volume>,
}

impl View for Readings {
    type V = ReadingsView;

    open spec fn view(&self) -> ReadingsView {
        ReadingsView { battery: self.battery, wifi: self.wifi@, volume: self.volume }
    }
}

/// The device status that the shell shows.
#[derive(Clone, Debug)]
pub struct DeviceSnapshot {
    pub battery: Option<Battery>,
    pub wifi_status: WifiStatus,
    pub volume: Volume,
}

pub struct DeviceSnapshotView {
    pub battery: Option<Battery>,
    pub wifi_status: WifiStatusView,
    pub volume: Volume,
}

impl View for DeviceSnapshot {
    type V = DeviceSnapshotView;

    open spec fn view(&self) -> DeviceSnapshotView {
        DeviceSnapshotView {
            battery: self.battery,
            wifi_status: self.wifi_status@,
            volume: self.volume,
        }
    }
}

impl DeviceSnapshotView {
    /// The status before anything was read: no battery, no link, silence.
    pub open spec fn initial() -> DeviceSnapshotView {
        DeviceSnapshotView {
            battery: None,
            wifi_status: WifiStatusView::Disconnected,
            volume: Volume { level: 0, muted: false },
        }
    }

    /// The status after a tick. Each field follows its own reading: a
    /// battery that could not be read is shown as absent, a volume that
    /// could not be read as silence, and neither failure touches the other
    /// fields.
    pub open spec fn refreshed(self, readings: ReadingsView) -> DeviceSnapshotView {
        DeviceSnapshotView {
            battery: readings.battery,
            wifi_status: readings.wifi,
            volume: match readings.volume {
                Some(volume) => volume,
                None => Volume { level: 0, muted: false },
            },
        }
    }
}

impl DeviceSnapshot {
    pub fn new() -> (snapshot: Self)
        ensures
            snapshot@ == DeviceSnapshotView::initial(),
    {
        DeviceSnapshot {
            battery: None,
            wifi_status: WifiStatus::Disconnected,
            volume: Volume { level: 0, muted: false },
        }
    }

    pub fn refresh(&mut self, readings: Readings)
        ensures
            final(self)@ == old(self)@.refreshed(readings@),
    {
        self.battery = readings.battery;
        self.wifi_status = readings.wifi;
        self.volume = match readings.volume {
            Some(volume) => volume,
            None => Volume { level: 0, muted: false },
        };
    }
}

} // verus!
