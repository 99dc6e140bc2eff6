//! The state that the overlay keeps while it runs, and the commands that change it.

use vstd::prelude::*;
use crate::hover::{hover_step, hover_update};
use crate::mode::{OverlayMode, ModeEffects, effects_of, mode_from_name, mode_name, other_mode};
use crate::settings::{AppSettings, DockPolicy, dock_policy, hotkey_changed};

verus! {

/// State of the running overlay.
pub struct AppState {
    /// The current working mode.
    pub mode: OverlayMode,
    /// The current settings, as last saved.
    pub settings: AppSettings,
    /// Whether the pointer counts as over the overlay.
    pub mouse_in_overlay: bool,
}

impl AppState {
    /// The state at start-up: pass-through mode, the pointer not over the
    /// overlay, and the loaded settings.
    pub fn new(settings: AppSettings) -> (s: AppState)
        ensures
            s.mode == OverlayMode::PassThrough,
            !s.mouse_in_overlay,
            s.settings == settings,
    {
        AppState { mode: OverlayMode::PassThrough, settings, mouse_in_overlay: false }
    }

    /// Enters mode `m`; returns what to do to the overlay window.
    pub fn set_mode(&mut self, m: OverlayMode) -> (e: ModeEffects)
        ensures
            final(self).mode == m,
            final(self).settings == old(self).settings,
            final(self).mouse_in_overlay == old(self).mouse_in_overlay,
            e == effects_of(m),
    {
        self.mode = m;
        m.effects()
    }

    /// Switches to the other mode.
    pub fn toggle_mode(&mut self) -> (e: ModeEffects)
        ensures
            final(self).mode == other_mode(old(self).mode),
            final(self).settings == old(self).settings,
            final(self).mouse_in_overlay == old(self).mouse_in_overlay,
            e == effects_of(other_mode(old(self).mode)),
    {
        let next = self.mode.toggled();
        self.set_mode(next)
    }

    /// Enters the mode that the front end names: `"edit"` or, for any other
    /// name, pass-through.
    pub fn set_mode_by_name(&mut self, name: &str) -> (e: ModeEffects)
        ensures
            final(self).mode == mode_from_name(name@),
            final(self).settings == old(self).settings,
            final(self).mouse_in_overlay == old(self).mouse_in_overlay,
            e == effects_of(mode_from_name(name@)),
    {
        let m = OverlayMode::from_name(name);
        self.set_mode(m)
    }

    /// The name of the current mode, as the front end reads it.
    pub fn mode_name(&self) -> (s: &'static str)
        ensures
            s@ == mode_name(self.mode),
    {
        self.mode.name()
    }

    /// Opening the control panel puts the overlay into edit mode, so that the
    /// panel's buttons match the overlay's state.
    pub fn open_control_panel(&mut self) -> (e: ModeEffects)
        ensures
            final(self).mode == OverlayMode::Edit,
            final(self).settings == old(self).settings,
            final(self).mouse_in_overlay == old(self).mouse_in_overlay,
            e == effects_of(OverlayMode::Edit),
    {
        self.set_mode(OverlayMode::Edit)
    }

    /// Closing the control panel puts the overlay back into pass-through mode.
    pub fn close_control_panel(&mut self) -> (e: ModeEffects)
        ensures
            final(self).mode == OverlayMode::PassThrough,
            final(self).settings == old(self).settings,
            final(self).mouse_in_overlay == old(self).mouse_in_overlay,
            e == effects_of(OverlayMode::PassThrough),
    {
        self.set_mode(OverlayMode::PassThrough)
    }

    /// Whether the next hover poll needs to read the pointer.
    pub fn wants_pointer_probe(&self) -> (r: bool)
        ensures
            r == (self.mode == OverlayMode::PassThrough),
    {
        crate::hover::wants_pointer_probe(self.mode)
    }

    /// One hover poll, `probe` being whether the pointer is over the overlay
    /// (`None` when it was not read or could not be); returns the value to
    /// announce in a `mouse-hover` event, if any.
    pub fn poll_hover(&mut self, probe: Option<bool>) -> (announce: Option<bool>)
        ensures
            final(self).mouse_in_overlay == hover_update(old(self).mode, old(self).mouse_in_overlay, probe).in_overlay,
            announce == hover_update(old(self).mode, old(self).mouse_in_overlay, probe).announce,
            final(self).mode == old(self).mode,
            final(self).settings == old(self).settings,
    {
        let u = hover_step(self.mode, self.mouse_in_overlay, probe);
        self.mouse_in_overlay = u.in_overlay;
        u.announce
    }

    /// A copy of the current settings, as the front end reads them.
    pub fn current_settings(&self) -> (s: AppSettings)
        ensures
            s == self.settings,
    {
        self.settings.clone()
    }

    /// Takes the settings that the front end saves; returns whether the
    /// hotkey changed and must be registered again.
    pub fn replace_settings(&mut self, settings: AppSettings) -> (hotkey_changed: bool)
        ensures
            final(self).settings == settings,
            hotkey_changed == (old(self).settings.hotkey@ != settings.hotkey@),
            final(self).mode == old(self).mode,
            final(self).mouse_in_overlay == old(self).mouse_in_overlay,
    {
        let changed = hotkey_changed(self.settings.hotkey.as_str(), settings.hotkey.as_str());
        self.settings = settings;
        changed
    }

    /// Records whether the application shows in the Dock; returns the Dock
    /// policy to apply.
    pub fn set_show_in_dock(&mut self, visible: bool) -> (p: DockPolicy)
        ensures
            final(self).settings == (AppSettings { show_in_dock: visible, ..old(self).settings }),
            final(self).mode == old(self).mode,
            final(self).mouse_in_overlay == old(self).mouse_in_overlay,
            p == (if visible { DockPolicy::Regular } else { DockPolicy::Accessory }),
    {
        self.settings.show_in_dock = visible;
        dock_policy(visible)
    }

    /// Records the overlay's new place, given as the bit patterns of its `f64`
    /// coordinates.
    pub fn record_position(&mut self, x_bits: u64, y_bits: u64)
        ensures
            final(self).settings == (AppSettings { pos_x_bits: x_bits, pos_y_bits: y_bits, ..old(self).settings }),
            final(self).mode == old(self).mode,
            final(self).mouse_in_overlay == old(self).mouse_in_overlay,
    {
        self.settings.pos_x_bits = x_bits;
        self.settings.pos_y_bits = y_bits;
    }
}

} // verus!
