//! The icons of the shell: what identifies each drawing surface, the state
//! that decides what is drawn on it, and the cache that keeps one drawing per
//! surface until that state changes.

use vstd::prelude::*;
use vstd::std_specs::cmp::PartialEqSpecImpl;
use crate::cache::{eq_is_value_equality, SmartCache, SmartCacheView};
use crate::device::{
    battery_step, network_code, spec_battery_step, spec_network_code, spec_volume_bars,
    volume_bars, WifiStatus,
};

verus! {

/// The kinds of icon.
#[derive(Clone, Copy, Debug, PartialEq, Eq, Structural)]
pub enum IconKind {
    StartIcon,
    DropDownIcon,
    PowerButton,
    RestartButton,
    LockButton,
    LogoffButton,
    CancelButton,
    FolderButton,
    TreeDot,
    EmptyApp,
    BatteryIcon,
    WifiIcon,
    VolumeIcon,
}

/// The identity of one drawing surface: the kind of icon and a tag that the
/// caller chooses to tell one surface of that kind from another.
#[derive(Debug)]
pub enum FrostwinIcons {
    StartIcon(String),
    DropDownIcon(String),
    PowerButton(String),
    RestartButton(String),
    LockButton(String),
    LogoffButton(String),
    CancelButton(String),
    FolderButton(String),
    TreeDot(String),
    EmptyApp(String),
    BatteryIcon(String),
    WifiIcon(String),
    VolumeIcon(String),
}

pub struct IconKey {
    pub kind: IconKind,
    pub tag: Seq<char>,
}

impl FrostwinIcons {
    pub open spec fn spec_kind(&self) -> IconKind {
        match *self {
            FrostwinIcons::StartIcon(_) => IconKind::StartIcon,
            FrostwinIcons::DropDownIcon(_) => IconKind::DropDownIcon,
            FrostwinIcons::PowerButton(_) => IconKind::PowerButton,
            FrostwinIcons::RestartButton(_) => IconKind::RestartButton,
            FrostwinIcons::LockButton(_) => IconKind::LockButton,
            FrostwinIcons::LogoffButton(_) => IconKind::LogoffButton,
            FrostwinIcons::CancelButton(_) => IconKind::CancelButton,
            FrostwinIcons::FolderButton(_) => IconKind::FolderButton,
            FrostwinIcons::TreeDot(_) => IconKind::TreeDot,
            FrostwinIcons::EmptyApp(_) => IconKind::EmptyApp,
            FrostwinIcons::BatteryIcon(_) => IconKind::BatteryIcon,
            FrostwinIcons::WifiIcon(_) => IconKind::WifiIcon,
            FrostwinIcons::VolumeIcon(_) => IconKind::VolumeIcon,
        }
    }

    pub open spec fn spec_tag(&self) -> Seq<char> {
        match *self {
            FrostwinIcons::StartIcon(tag) => tag@,
            FrostwinIcons::DropDownIcon(tag) => tag@,
            FrostwinIcons::PowerButton(tag) => tag@,
            FrostwinIcons::RestartButton(tag) => tag@,
            FrostwinIcons::LockButton(tag) => tag@,
            FrostwinIcons::LogoffButton(tag) => tag@,
            FrostwinIcons::CancelButton(tag) => tag@,
            FrostwinIcons::FolderButton(tag) => tag@,
            FrostwinIcons::TreeDot(tag) => tag@,
            FrostwinIcons::EmptyApp(tag) => tag@,
            FrostwinIcons::BatteryIcon(tag) => tag@,
            FrostwinIcons::WifiIcon(tag) => tag@,
            FrostwinIcons::VolumeIcon(tag) => tag@,
        }
    }

    #[verifier::when_used_as_spec(spec_kind)]
    pub fn kind(&self) -> (kind: IconKind)
        ensures
            kind == self.spec_kind(),
    {
        match self {
            FrostwinIcons::StartIcon(_) => IconKind::StartIcon,
            FrostwinIcons::DropDownIcon(_) => IconKind::DropDownIcon,
            FrostwinIcons::PowerButton(_) => IconKind::PowerButton,
            FrostwinIcons::RestartButton(_) => IconKind::RestartButton,
            FrostwinIcons::LockButton(_) => IconKind::LockButton,
            FrostwinIcons::LogoffButton(_) => IconKind::LogoffButton,
            FrostwinIcons::CancelButton(_) => IconKind::CancelButton,
            FrostwinIcons::FolderButton(_) => IconKind::FolderButton,
            FrostwinIcons::TreeDot(_) => IconKind::TreeDot,
            FrostwinIcons::EmptyApp(_) => IconKind::EmptyApp,
            FrostwinIcons::BatteryIcon(_) => IconKind::BatteryIcon,
            FrostwinIcons::WifiIcon(_) => IconKind::WifiIcon,
            FrostwinIcons::VolumeIcon(_) => IconKind::VolumeIcon,
        }
    }

    pub fn tag(&self) -> (tag: &String)
        ensures
            tag@ == self.spec_tag(),
    {
        match self {
            FrostwinIcons::StartIcon(tag) => tag,
            FrostwinIcons::DropDownIcon(tag) => tag,
            FrostwinIcons::PowerButton(tag) => tag,
            FrostwinIcons::RestartButton(tag) => tag,
            FrostwinIcons::LockButton(tag) => tag,
            FrostwinIcons::LogoffButton(tag) => tag,
            FrostwinIcons::CancelButton(tag) => tag,
            FrostwinIcons::FolderButton(tag) => tag,
            FrostwinIcons::TreeDot(tag) => tag,
            FrostwinIcons::EmptyApp(tag) => tag,
            FrostwinIcons::BatteryIcon(tag) => tag,
            FrostwinIcons::WifiIcon(tag) => tag,
            FrostwinIcons::VolumeIcon(tag) => tag,
        }
    }

    /// The identity of the surface of kind `kind` with the tag `tag`.
    pub fn of(kind: IconKind, tag: String) -> (icon: FrostwinIcons)
        ensures
            icon@ == (IconKey { kind, tag: tag@ }),
    {
        match kind {
            IconKind::StartIcon => FrostwinIcons::StartIcon(tag),
            IconKind::DropDownIcon => FrostwinIcons::DropDownIcon(tag),
            IconKind::PowerButton => FrostwinIcons::PowerButton(tag),
            IconKind::RestartButton => FrostwinIcons::RestartButton(tag),
            IconKind::LockButton => FrostwinIcons::LockButton(tag),
            IconKind::LogoffButton => FrostwinIcons::LogoffButton(tag),
            IconKind::CancelButton => FrostwinIcons::CancelButton(tag),
            IconKind::FolderButton => FrostwinIcons::FolderButton(tag),
            IconKind::TreeDot => FrostwinIcons::TreeDot(tag),
            IconKind::EmptyApp => FrostwinIcons::EmptyApp(tag),
            IconKind::BatteryIcon => FrostwinIcons::BatteryIcon(tag),
            IconKind::WifiIcon => FrostwinIcons::WifiIcon(tag),
            IconKind::VolumeIcon => FrostwinIcons::VolumeIcon(tag),
        }
    }
}

impl View for FrostwinIcons {
    type V = IconKey;

    open spec fn view(&self) -> IconKey {
        IconKey { kind: self.spec_kind(), tag: self.spec_tag() }
    }
}

impl Clone for FrostwinIcons {
    fn clone(&self) -> (copy: Self)
        ensures
            copy@ == self@,
    {
        FrostwinIcons::of(self.kind(), self.tag().clone())
    }
}

impl PartialEq for FrostwinIcons {
    fn eq(&self, other: &Self) -> (equal: bool) {
        self.kind() == other.kind() && *self.tag() == *other.tag()
    }
}

impl Eq for FrostwinIcons {

}

impl PartialEqSpecImpl for FrostwinIcons {
    open spec fn obeys_eq_spec() -> bool {
        true
    }

    open spec fn eq_spec(&self, other: &Self) -> bool {
        self.spec_kind() == other.spec_kind() && self.spec_tag() == other.spec_tag()
    }
}

/// The state that decides what an icon shows. Two draws of one surface with
/// equal states show the same picture.
#[derive(Clone, Copy, Debug)]
pub enum IconState {
    /// An icon with two pictures, or with one: open or closed, or always on.
    Flag(bool),
    /// The battery: on the charger or not, and the step of its charge.
    Battery { charging: bool, step: u16 },
    /// The network link, by its code.
    Network(i32),
    /// The audio output: muted or not, and the bucket of its volume.
    Volume { muted: bool, bars: u8 },
}

impl PartialEq for IconState {
    fn eq(&self, other: &Self) -> (equal: bool) {
        match self {
            IconState::Flag(a) => match other {
                IconState::Flag(b) => *a == *b,
                _ => false,
            },
            IconState::Battery { charging: a, step: s } => match other {
                IconState::Battery { charging: b, step: t } => *a == *b && *s == *t,
                _ => false,
            },
            IconState::Network(a) => match other {
                IconState::Network(b) => *a == *b,
                _ => false,
            },
            IconState::Volume { muted: a, bars: s } => match other {
                IconState::Volume { muted: b, bars: t } => *a == *b && *s == *t,
                _ => false,
            },
        }
    }
}

impl Eq for IconState {

}

impl PartialEqSpecImpl for IconState {
    open spec fn obeys_eq_spec() -> bool {
        true
    }

    open spec fn eq_spec(&self, other: &Self) -> bool {
        *self == *other
    }
}

/// `==` on icon states is equality of values.
pub proof fn lemma_icon_state_eq()
    ensures
        eq_is_value_equality::<IconState>(),
{
}

/// An icon: it names the surface it is drawn on and the state it shows.
pub trait Icon {
    spec fn spec_identity(&self) -> IconKey;

    spec fn spec_state(&self) -> IconState;

    fn identity(&self) -> (key: FrostwinIcons)
        ensures
            key@ == self.spec_identity(),
    ;

    fn state(&self) -> (state: IconState)
        ensures
            state == self.spec_state(),
    ;
}

/// The start button: its logo is lit while the start menu is open.
#[derive(Debug)]
pub struct StartLogo {
    pub id: String,
    pub open: bool,
}

impl Icon for StartLogo {
    open spec fn spec_identity(&self) -> IconKey {
        IconKey { kind: IconKind::StartIcon, tag: self.id@ }
    }

    open spec fn spec_state(&self) -> IconState {
        IconState::Flag(self.open)
    }

    fn identity(&self) -> (key: FrostwinIcons) {
        FrostwinIcons::StartIcon(self.id.clone())
    }

    fn state(&self) -> (state: IconState) {
        IconState::Flag(self.open)
    }
}

/// The arrow of a drop-down list: it points down while the list is open.
#[derive(Debug)]
pub struct DropDownIcon {
    pub id: String,
    pub open: bool,
}

impl Icon for DropDownIcon {
    open spec fn spec_identity(&self) -> IconKey {
        IconKey { kind: IconKind::DropDownIcon, tag: self.id@ }
    }

    open spec fn spec_state(&self) -> IconState {
        IconState::Flag(self.open)
    }

    fn identity(&self) -> (key: FrostwinIcons) {
        FrostwinIcons::DropDownIcon(self.id.clone())
    }

    fn state(&self) -> (state: IconState) {
        IconState::Flag(self.open)
    }
}

/// The button that shuts the machine down.
#[derive(Debug)]
pub struct PowerButton {
    pub id: String,
}

impl Icon for PowerButton {
    open spec fn spec_identity(&self) -> IconKey {
        IconKey { kind: IconKind::PowerButton, tag: self.id@ }
    }

    open spec fn spec_state(&self) -> IconState {
        IconState::Flag(true)
    }

    fn identity(&self) -> (key: FrostwinIcons) {
        FrostwinIcons::PowerButton(self.id.clone())
    }

    fn state(&self) -> (state: IconState) {
        IconState::Flag(true)
    }
}

/// The button that restarts the machine.
#[derive(Debug)]
pub struct RestartButton {
    pub id: String,
}

impl Icon for RestartButton {
    open spec fn spec_identity(&self) -> IconKey {
        IconKey { kind: IconKind::RestartButton, tag: self.id@ }
    }

    open spec fn spec_state(&self) -> IconState {
        IconState::Flag(true)
    }

    fn identity(&self) -> (key: FrostwinIcons) {
        FrostwinIcons::RestartButton(self.id.clone())
    }

    fn state(&self) -> (state: IconState) {
        IconState::Flag(true)
    }
}

/// The button that locks the workstation.
#[derive(Debug)]
pub struct LockButton {
    pub id: String,
}

impl Icon for LockButton {
    open spec fn spec_identity(&self) -> IconKey {
        IconKey { kind: IconKind::LockButton, tag: self.id@ }
    }

    open spec fn spec_state(&self) -> IconState {
        IconState::Flag(true)
    }

    fn identity(&self) -> (key: FrostwinIcons) {
        FrostwinIcons::LockButton(self.id.clone())
    }

    fn state(&self) -> (state: IconState) {
        IconState::Flag(true)
    }
}

/// The button that logs the user off.
#[derive(Debug)]
pub struct LogoffButton {
    pub id: String,
}

impl Icon for LogoffButton {
    open spec fn spec_identity(&self) -> IconKey {
        IconKey { kind: IconKind::LogoffButton, tag: self.id@ }
    }

    open spec fn spec_state(&self) -> IconState {
        IconState::Flag(true)
    }

    fn identity(&self) -> (key: FrostwinIcons) {
        FrostwinIcons::LogoffButton(self.id.clone())
    }

    fn state(&self) -> (state: IconState) {
        IconState::Flag(true)
    }
}

/// The button that dismisses the power dialog.
#[derive(Debug)]
pub struct CancelButton {
    pub id: String,
}

impl Icon for CancelButton {
    open spec fn spec_identity(&self) -> IconKey {
        IconKey { kind: IconKind::CancelButton, tag: self.id@ }
    }

    open spec fn spec_state(&self) -> IconState {
        IconState::Flag(true)
    }

    fn identity(&self) -> (key: FrostwinIcons) {
        FrostwinIcons::CancelButton(self.id.clone())
    }

    fn state(&self) -> (state: IconState) {
        IconState::Flag(true)
    }
}

/// The picture of a folder in the start-menu tree.
#[derive(Debug)]
pub struct FolderButton {
    pub id: String,
}

impl Icon for FolderButton {
    open spec fn spec_identity(&self) -> IconKey {
        IconKey { kind: IconKind::FolderButton, tag: self.id@ }
    }

    open spec fn spec_state(&self) -> IconState {
        IconState::Flag(true)
    }

    fn identity(&self) -> (key: FrostwinIcons) {
        FrostwinIcons::FolderButton(self.id.clone())
    }

    fn state(&self) -> (state: IconState) {
        IconState::Flag(true)
    }
}

/// The dot in front of an entry of the start-menu tree.
#[derive(Debug)]
pub struct TreeDot {
    pub id: String,
}

impl Icon for TreeDot {
    open spec fn spec_identity(&self) -> IconKey {
        IconKey { kind: IconKind::TreeDot, tag: self.id@ }
    }

    open spec fn spec_state(&self) -> IconState {
        IconState::Flag(true)
    }

    fn identity(&self) -> (key: FrostwinIcons) {
        FrostwinIcons::TreeDot(self.id.clone())
    }

    fn state(&self) -> (state: IconState) {
        IconState::Flag(true)
    }
}

/// The picture of an application that has no icon of its own.
#[derive(Debug)]
pub struct EmptyApp {
    pub id: String,
}

impl Icon for EmptyApp {
    open spec fn spec_identity(&self) -> IconKey {
        IconKey { kind: IconKind::EmptyApp, tag: self.id@ }
    }

    open spec fn spec_state(&self) -> IconState {
        IconState::Flag(true)
    }

    fn identity(&self) -> (key: FrostwinIcons) {
        FrostwinIcons::EmptyApp(self.id.clone())
    }

    fn state(&self) -> (state: IconState) {
        IconState::Flag(true)
    }
}

/// The battery icon. `level` is the charge in tenths of a percent.
#[derive(Debug)]
pub struct BatteryIcon {
    pub id: String,
    pub charging: bool,
    pub level: u16,
}

impl Icon for BatteryIcon {
    open spec fn spec_identity(&self) -> IconKey {
        IconKey { kind: IconKind::BatteryIcon, tag: self.id@ }
    }

    open spec fn spec_state(&self) -> IconState {
        IconState::Battery { charging: self.charging, step: spec_battery_step(self.level) as u16 }
    }

    fn identity(&self) -> (key: FrostwinIcons) {
        FrostwinIcons::BatteryIcon(self.id.clone())
    }

    fn state(&self) -> (state: IconState) {
        IconState::Battery { charging: self.charging, step: battery_step(self.level) }
    }
}

/// The network icon.
#[derive(Debug)]
pub struct WifiIcon {
    pub id: String,
    pub status: WifiStatus,
}

impl Icon for WifiIcon {
    open spec fn spec_identity(&self) -> IconKey {
        IconKey { kind: IconKind::WifiIcon, tag: self.id@ }
    }

    open spec fn spec_state(&self) -> IconState {
        IconState::Network(spec_network_code(self.status@) as i32)
    }

    fn identity(&self) -> (key: FrostwinIcons) {
        FrostwinIcons::WifiIcon(self.id.clone())
    }

    fn state(&self) -> (state: IconState) {
        IconState::Network(network_code(&self.status))
    }
}

/// The volume icon. `volume` is the volume in thousandths of full volume. A
/// muted output shows the mute mark whatever its volume.
#[derive(Debug)]
pub struct VolumeIcon {
    pub id: String,
    pub volume: u16,
    pub muted: bool,
}

impl Icon for VolumeIcon {
    open spec fn spec_identity(&self) -> IconKey {
        IconKey { kind: IconKind::VolumeIcon, tag: self.id@ }
    }

    open spec fn spec_state(&self) -> IconState {
        IconState::Volume { muted: self.muted, bars: spec_volume_bars(self.volume) as u8 }
    }

    fn identity(&self) -> (key: FrostwinIcons) {
        FrostwinIcons::VolumeIcon(self.id.clone())
    }

    fn state(&self) -> (state: IconState) {
        IconState::Volume { muted: self.muted, bars: volume_bars(self.volume) }
    }
}

} // verus!
