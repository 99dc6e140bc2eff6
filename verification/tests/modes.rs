use n_top::hover::{hover_step, pointer_over_overlay, wants_pointer_probe, HoverUpdate};
use n_top::mode::{ModeEffects, OverlayMode};
use n_top::menu::{
    control_panel_label, event_returns_to_pass_through, history_label, overlay_label,
    hotkey_event_toggles, tray_click_opens_panel, MenuCommand,
};
use n_top::state::AppState;
use n_top::settings::{AppSettings, DockPolicy};

#[test]
fn toggled_switches_between_the_two_modes() {
    assert_eq!(OverlayMode::Edit.toggled(), OverlayMode::PassThrough);
    assert_eq!(OverlayMode::PassThrough.toggled(), OverlayMode::Edit);
    assert_eq!(OverlayMode::Edit.toggled().toggled(), OverlayMode::Edit);
}

#[test]
fn mode_names_are_those_of_the_front_end() {
    assert_eq!(OverlayMode::Edit.name(), "edit");
    assert_eq!(OverlayMode::PassThrough.name(), "pass-through");
}

#[test]
fn from_name_selects_edit_only_for_edit() {
    assert_eq!(OverlayMode::from_name("edit"), OverlayMode::Edit);
    assert_eq!(OverlayMode::from_name("pass-through"), OverlayMode::PassThrough);
    assert_eq!(OverlayMode::from_name("Edit"), OverlayMode::PassThrough);
    assert_eq!(OverlayMode::from_name(""), OverlayMode::PassThrough);
    assert_eq!(OverlayMode::from_name("edit "), OverlayMode::PassThrough);
}

#[test]
fn mode_name_round_trip_law() {
    for m in [OverlayMode::Edit, OverlayMode::PassThrough] {
        assert_eq!(OverlayMode::from_name(m.name()), m);
    }
}

#[test]
fn effects_follow_the_mode() {
    assert_eq!(
        OverlayMode::Edit.effects(),
        ModeEffects { ignore_cursor_events: false, take_focus: true, announced: OverlayMode::Edit }
    );
    assert_eq!(
        OverlayMode::PassThrough.effects(),
        ModeEffects {
            ignore_cursor_events: true,
            take_focus: false,
            announced: OverlayMode::PassThrough
        }
    );
}

#[test]
fn hover_in_edit_mode_resets_and_announces_once() {
    assert_eq!(
        hover_step(OverlayMode::Edit, true, None),
        HoverUpdate { in_overlay: false, announce: Some(false) }
    );
    assert_eq!(
        hover_step(OverlayMode::Edit, false, Some(true)),
        HoverUpdate { in_overlay: false, announce: None }
    );
}

#[test]
fn hover_in_pass_through_follows_the_probe() {
    assert_eq!(
        hover_step(OverlayMode::PassThrough, false, Some(true)),
        HoverUpdate { in_overlay: true, announce: Some(true) }
    );
    assert_eq!(
        hover_step(OverlayMode::PassThrough, true, Some(true)),
        HoverUpdate { in_overlay: true, announce: None }
    );
    assert_eq!(
        hover_step(OverlayMode::PassThrough, true, Some(false)),
        HoverUpdate { in_overlay: false, announce: Some(false) }
    );
    assert_eq!(
        hover_step(OverlayMode::PassThrough, true, None),
        HoverUpdate { in_overlay: true, announce: None }
    );
}

#[test]
fn repeated_poll_announces_nothing_law() {
    for mode in [OverlayMode::Edit, OverlayMode::PassThrough] {
        for current in [false, true] {
            for probe in [None, Some(false), Some(true)] {
                let first = hover_step(mode, current, probe);
                let second = hover_step(mode, first.in_overlay, probe);
                assert_eq!(second.announce, None);
                assert_eq!(first.announce.is_some(), first.in_overlay != current);
            }
        }
    }
}

#[test]
fn pointer_probe_only_in_pass_through() {
    assert!(wants_pointer_probe(OverlayMode::PassThrough));
    assert!(!wants_pointer_probe(OverlayMode::Edit));
    assert!(!pointer_over_overlay(None));
    assert!(!pointer_over_overlay(Some(false)));
    assert!(pointer_over_overlay(Some(true)));
}

#[test]
fn menu_commands_and_ids() {
    assert_eq!(MenuCommand::from_id("toggle"), Some(MenuCommand::ToggleMode));
    assert_eq!(MenuCommand::from_id("panel"), Some(MenuCommand::OpenControlPanel));
    assert_eq!(MenuCommand::from_id("history"), Some(MenuCommand::OpenHistory));
    assert_eq!(MenuCommand::from_id("quit"), Some(MenuCommand::Quit));
    assert_eq!(MenuCommand::from_id("other"), None);
    assert_eq!(MenuCommand::from_id(""), None);
    for c in MenuCommand::all() {
        assert_eq!(MenuCommand::from_id(c.id()), Some(c));
    }
    assert_eq!(MenuCommand::all().len(), 4);
    assert_eq!(MenuCommand::ToggleMode.title(), "切换编辑/穿透");
    assert_eq!(MenuCommand::Quit.title(), "退出 N-Top");
}

#[test]
fn window_labels_and_events() {
    assert_eq!(overlay_label(), "overlay");
    assert_eq!(control_panel_label(), "control-panel");
    assert_eq!(history_label(), "history");
    assert!(event_returns_to_pass_through("control-panel", true));
    assert!(!event_returns_to_pass_through("control-panel", false));
    assert!(!event_returns_to_pass_through("overlay", true));
    assert!(tray_click_opens_panel(true, true));
    assert!(!tray_click_opens_panel(true, false));
    assert!(!tray_click_opens_panel(false, true));
}

#[test]
fn state_starts_in_pass_through() {
    let s = AppState::new(AppSettings::default());
    assert_eq!(s.mode, OverlayMode::PassThrough);
    assert!(!s.mouse_in_overlay);
    assert_eq!(s.mode_name(), "pass-through");
}

#[test]
fn state_mode_commands() {
    let mut s = AppState::new(AppSettings::default());
    let e = s.toggle_mode();
    assert_eq!(s.mode, OverlayMode::Edit);
    assert!(e.take_focus);
    assert!(!e.ignore_cursor_events);
    s.toggle_mode();
    assert_eq!(s.mode, OverlayMode::PassThrough);
    s.set_mode_by_name("edit");
    assert_eq!(s.mode_name(), "edit");
    s.set_mode_by_name("anything");
    assert_eq!(s.mode_name(), "pass-through");
    s.open_control_panel();
    assert_eq!(s.mode, OverlayMode::Edit);
    let e = s.close_control_panel();
    assert_eq!(s.mode, OverlayMode::PassThrough);
    assert!(e.ignore_cursor_events);
}

#[test]
fn state_hover_poll() {
    let mut s = AppState::new(AppSettings::default());
    assert!(s.wants_pointer_probe());
    assert_eq!(s.poll_hover(Some(true)), Some(true));
    assert!(s.mouse_in_overlay);
    assert_eq!(s.poll_hover(Some(true)), None);
    s.set_mode(OverlayMode::Edit);
    assert!(!s.wants_pointer_probe());
    assert_eq!(s.poll_hover(None), Some(false));
    assert!(!s.mouse_in_overlay);
}

#[test]
fn state_settings_commands() {
    let mut s = AppState::new(AppSettings::default());
    let mut next = s.current_settings();
    next.text = String::from("hello");
    assert!(!s.replace_settings(next));
    assert_eq!(s.settings.text, "hello");
    let mut next = s.current_settings();
    next.hotkey = String::from("Control+Shift+K");
    assert!(s.replace_settings(next));
    assert_eq!(s.settings.hotkey, "Control+Shift+K");
    assert_eq!(s.set_show_in_dock(true), DockPolicy::Regular);
    assert!(s.settings.show_in_dock);
    assert_eq!(s.set_show_in_dock(false), DockPolicy::Accessory);
    assert!(!s.settings.show_in_dock);
    s.record_position((-20.0f64).to_bits(), 840.5f64.to_bits());
    assert_eq!(f64::from_bits(s.settings.pos_x_bits), -20.0);
    assert_eq!(f64::from_bits(s.settings.pos_y_bits), 840.5);
    assert_eq!(s.settings.text, "hello");
}

#[test]
fn hover_events_alternate_over_many_polls() {
    let mut s = AppState::new(AppSettings::default());
    let polls = [
        (OverlayMode::PassThrough, Some(true)),
        (OverlayMode::PassThrough, Some(true)),
        (OverlayMode::PassThrough, None),
        (OverlayMode::Edit, None),
        (OverlayMode::Edit, None),
        (OverlayMode::PassThrough, Some(false)),
        (OverlayMode::PassThrough, Some(true)),
        (OverlayMode::PassThrough, Some(false)),
    ];
    let mut announced = Vec::new();
    for (mode, probe) in polls {
        s.set_mode(mode);
        if let Some(v) = s.poll_hover(probe) {
            announced.push(v);
            assert_eq!(v, s.mouse_in_overlay);
        }
    }
    assert_eq!(announced, vec![true, false, true, false]);
}

#[test]
fn only_a_hotkey_press_toggles() {
    assert!(hotkey_event_toggles(true));
    assert!(!hotkey_event_toggles(false));
}
