//! The picture files of the shell, by their paths below the directory they
//! are unpacked to, and which of them shows which state.

use vstd::prelude::*;
use crate::device::{
    battery_decile, spec_battery_decile, spec_volume_bars, spec_wifi_tier, volume_bars,
    wifi_tier, WifiStatus, WifiStatusView,
};

verus! {

/// The picture of the start button.
pub open spec fn spec_start_icon(open: bool) -> Seq<char> {
    if open {
        "icons/startIcon/StartIconOpen.png"@
    } else {
        "icons/startIcon/StartIconClosed.png"@
    }
}

pub fn start_icon(open: bool) -> (path: &'static str)
    ensures
        path@ == spec_start_icon(open),
{
    if open {
        "icons/startIcon/StartIconOpen.png"
    } else {
        "icons/startIcon/StartIconClosed.png"
    }
}

/// The picture of the network link: one for no link, one for a wired link,
/// and one for each tier of a wireless signal.
pub open spec fn spec_wifi_icon(status: WifiStatusView) -> Seq<char> {
    match status {
        WifiStatusView::Disconnected => "icons/network/NoInternet.png"@,
        WifiStatusView::Ethernet => "icons/network/EthernetIcon.png"@,
        WifiStatusView::Connected(_, strength) => if spec_wifi_tier(strength) == 4 {
            "icons/network/WifiIcon4.png"@
        } else if spec_wifi_tier(strength) == 3 {
            "icons/network/WifiIcon3.png"@
        } else if spec_wifi_tier(strength) == 2 {
            "icons/network/WifiIcon2.png"@
        } else if spec_wifi_tier(strength) == 1 {
            "icons/network/WifiIcon1.png"@
        } else {
            "icons/network/WifiIcon0.png"@
        },
    }
}

pub fn wifi_icon(status: &WifiStatus) -> (path: &'static str)
    ensures
        path@ == spec_wifi_icon(status@),
{
    match status {
        WifiStatus::Disconnected => "icons/network/NoInternet.png",
        WifiStatus::Ethernet => "icons/network/EthernetIcon.png",
        WifiStatus::Connected(_, strength) => {
            let tier = wifi_tier(*strength);
            if tier == 4 {
                "icons/network/WifiIcon4.png"
            } else if tier == 3 {
                "icons/network/WifiIcon3.png"
            } else if tier == 2 {
                "icons/network/WifiIcon2.png"
            } else if tier == 1 {
                "icons/network/WifiIcon1.png"
            } else {
                "icons/network/WifiIcon0.png"
            }
        },
    }
}

/// The picture of the battery: one for each decile of its charge, drawn
/// with the charging mark while it is on the charger.
pub open spec fn spec_battery_icon(charging: bool, level: u16) -> Seq<char> {
    let decile = spec_battery_decile(level);
    if charging {
        if decile == 100 {
            "icons/battery/BatteryC100.png"@
        } else if decile == 90 {
            "icons/battery/BatteryC90.png"@
        } else if decile == 80 {
            "icons/battery/BatteryC80.png"@
        } else if decile == 70 {
            "icons/battery/BatteryC70.png"@
        } else if decile == 60 {
            "icons/battery/BatteryC60.png"@
        } else if decile == 50 {
            "icons/battery/BatteryC50.png"@
        } else if decile == 40 {
            "icons/battery/BatteryC40.png"@
        } else if decile == 30 {
            "icons/battery/BatteryC30.png"@
        } else if decile == 20 {
            "icons/battery/BatteryC20.png"@
        } else {
            "icons/battery/BatteryC10.png"@
        }
    } else {
        if decile == 100 {
            "icons/battery/Battery100.png"@
        } else if decile == 90 {
            "icons/battery/Battery90.png"@
        } else if decile == 80 {
            "icons/battery/Battery80.png"@
        } else if decile == 70 {
            "icons/battery/Battery70.png"@
        } else if decile == 60 {
            "icons/battery/Battery60.png"@
        } else if decile == 50 {
            "icons/battery/Battery50.png"@
        } else if decile == 40 {
            "icons/battery/Battery40.png"@
        } else if decile == 30 {
            "icons/battery/Battery30.png"@
        } else if decile == 20 {
            "icons/battery/Battery20.png"@
        } else {
            "icons/battery/Battery10.png"@
        }
    }
}

pub fn battery_icon(charging: bool, level: u16) -> (path: &'static str)
    ensures
        path@ == spec_battery_icon(charging, level),
{
    let decile = battery_decile(level);
    if charging {
        if decile == 100 {
            "icons/battery/BatteryC100.png"
        } else if decile == 90 {
            "icons/battery/BatteryC90.png"
        } else if decile == 80 {
            "icons/battery/BatteryC80.png"
        } else if decile == 70 {
            "icons/battery/BatteryC70.png"
        } else if decile == 60 {
            "icons/battery/BatteryC60.png"
        } else if decile == 50 {
            "icons/battery/BatteryC50.png"
        } else if decile == 40 {
            "icons/battery/BatteryC40.png"
        } else if decile == 30 {
            "icons/battery/BatteryC30.png"
        } else if decile == 20 {
            "icons/battery/BatteryC20.png"
        } else {
            "icons/battery/BatteryC10.png"
        }
    } else {
        if decile == 100 {
            "icons/battery/Battery100.png"
        } else if decile == 90 {
            "icons/battery/Battery90.png"
        } else if decile == 80 {
            "icons/battery/Battery80.png"
        } else if decile == 70 {
            "icons/battery/Battery70.png"
        } else if decile == 60 {
            "icons/battery/Battery60.png"
        } else if decile == 50 {
            "icons/battery/Battery50.png"
        } else if decile == 40 {
            "icons/battery/Battery40.png"
        } else if decile == 30 {
            "icons/battery/Battery30.png"
        } else if decile == 20 {
            "icons/battery/Battery20.png"
        } else {
            "icons/battery/Battery10.png"
        }
    }
}

/// The picture of the audio output: the mute mark while it is muted,
/// whatever its volume, and else one for each bucket of its volume.
pub open spec fn spec_sound_icon(level: u16, muted: bool) -> Seq<char> {
    if muted {
        "icons/sound/SoundM.png"@
    } else if spec_volume_bars(level) == 5 {
        "icons/sound/Sound4.png"@
    } else if spec_volume_bars(level) == 4 {
        "icons/sound/Sound3.png"@
    } else if spec_volume_bars(level) == 3 {
        "icons/sound/Sound2.png"@
    } else if spec_volume_bars(level) == 2 {
        "icons/sound/Sound1.png"@
    } else {
        "icons/sound/Sound0.png"@
    }
}

pub fn sound_icon(level: u16, muted: bool) -> (path: &'static str)
    ensures
        path@ == spec_sound_icon(level, muted),
{
    let bars = volume_bars(level);
    if muted {
        "icons/sound/SoundM.png"
    } else if bars == 5 {
        "icons/sound/Sound4.png"
    } else if bars == 4 {
        "icons/sound/Sound3.png"
    } else if bars == 3 {
        "icons/sound/Sound2.png"
    } else if bars == 2 {
        "icons/sound/Sound1.png"
    } else {
        "icons/sound/Sound0.png"
    }
}

} // verus!
