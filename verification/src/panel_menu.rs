//! The quick-settings panel.

use vstd::prelude::*;
use crate::effect::{Effect, EffectView};
use crate::views::seq_view;
use crate::window::{
    panel_menu_layout, spec_panel_menu_layout, Size, WindowHandle, WindowKind, WindowSettings,
};

verus! {

/// What the panel reacts to. `Resize` carries the size of the monitor, or
/// nothing if the host could not tell it.
#[derive(Clone, Copy, Debug, PartialEq, Eq, Structural)]
pub enum PanelMessage {
    Init,
    Resize(Option<Size>),
}

#[derive(Clone, Copy, Debug, PartialEq, Eq, Structural)]
pub struct PanelMenu {
    pub id: WindowHandle,
}

impl PanelMenu {
    /// What the host is asked to do on `message`. Once its window is there
    /// the panel asks for the monitor's size, and lays itself out when it
    /// is told.
    pub open spec fn effects_of(self, message: PanelMessage) -> Seq<EffectView> {
        match message {
            PanelMessage::Init => seq![EffectView::QueryMonitorSize(self.id, WindowKind::PanelMenu)],
            PanelMessage::Resize(Some(size)) => seq![
                EffectView::Resize(self.id, spec_panel_menu_layout(size).size),
                EffectView::MoveTo(self.id, spec_panel_menu_layout(size).position),
            ],
            PanelMessage::Resize(None) => Seq::empty(),
        }
    }

    /// The panel in the window `id`, and the request to open that window.
    pub fn new(id: WindowHandle) -> (opened: (Self, Effect))
        ensures
            opened.0 == (PanelMenu { id }),
            opened.1@ == (EffectView::OpenWindow {
                handle: id,
                kind: WindowKind::PanelMenu,
                settings: WindowSettings::spec_for_kind(WindowKind::PanelMenu),
            }),
    {
        (
            PanelMenu { id },
            Effect::OpenWindow {
                handle: id,
                kind: WindowKind::PanelMenu,
                settings: WindowSettings::for_kind(WindowKind::PanelMenu),
            },
        )
    }

    pub fn update(&mut self, message: PanelMessage) -> (effects: Vec<Effect>)
        ensures
            *final(self) == *old(self),
            seq_view(effects@) == old(self).effects_of(message),
    {
        let mut effects: Vec<Effect> = Vec::new();
        match message {
            PanelMessage::Init => {
                effects.push(Effect::QueryMonitorSize(self.id, WindowKind::PanelMenu));
            },
            PanelMessage::Resize(resize) => {
                if let Some(size) = resize {
                    let layout = panel_menu_layout(size);
                    effects.push(Effect::Resize(self.id, layout.size));
                    effects.push(Effect::MoveTo(self.id, layout.position));
                }
            },
        }
        assert(seq_view(effects@) =~= self.effects_of(message));
        effects
    }
}

} // verus!
