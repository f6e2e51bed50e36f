//! The desktop: the window behind all others.

use vstd::prelude::*;
use crate::effect::{Effect, EffectView};
use crate::views::seq_view;
use crate::window::{WindowHandle, WindowKind, WindowSettings};

verus! {

/// What the desktop reacts to.
#[derive(Clone, Copy, Debug, PartialEq, Eq, Structural)]
pub enum DesktopMessage {
    Init,
    KeepAtBottom,
}

#[derive(Clone, Copy, Debug, PartialEq, Eq, Structural)]
pub struct Desktop {
    pub id: WindowHandle,
}

impl Desktop {
    /// What the host is asked to do on `message`. Once its window is there
    /// the desktop is kept from taking the focus and put below every other
    /// window; whenever it has caught the focus it is put back below them.
    pub open spec fn effects_of(self, message: DesktopMessage) -> Seq<EffectView> {
        match message {
            DesktopMessage::Init => seq![
                EffectView::SetNoActivate(self.id),
                EffectView::PinToBottom(self.id),
            ],
            DesktopMessage::KeepAtBottom => seq![EffectView::PinToBottom(self.id)],
        }
    }

    /// The desktop in the window `id`, and the request to open that window.
    pub fn new(id: WindowHandle) -> (opened: (Self, Effect))
        ensures
            opened.0 == (Desktop { id }),
            opened.1@ == (EffectView::OpenWindow {
                handle: id,
                kind: WindowKind::Desktop,
                settings: WindowSettings::spec_for_kind(WindowKind::Desktop),
            }),
    {
        (
            Desktop { id },
            Effect::OpenWindow {
                handle: id,
                kind: WindowKind::Desktop,
                settings: WindowSettings::for_kind(WindowKind::Desktop),
            },
        )
    }

    pub fn update(&mut self, message: DesktopMessage) -> (effects: Vec<Effect>)
        ensures
            *final(self) == *old(self),
            seq_view(effects@) == old(self).effects_of(message),
    {
        let mut effects: Vec<Effect> = Vec::new();
        match message {
            DesktopMessage::Init => {
                effects.push(Effect::SetNoActivate(self.id));
                effects.push(Effect::PinToBottom(self.id));
            },
            DesktopMessage::KeepAtBottom => {
                effects.push(Effect::PinToBottom(self.id));
            },
        }
        assert(seq_view(effects@) =~= self.effects_of(message));
        effects
    }
}

} // verus!
