use n_top::settings::{
    dock_policy, first_save_action, hotkey_changed, hotkey_parse_failure, hotkey_register_failure,
    loaded_settings, save_step, AppSettings, DockPolicy, SaveAction, DEFAULT_BG_ALPHA_BITS,
};

#[test]
fn default_settings_values() {
    let s = AppSettings::default();
    assert_eq!(s.text, "在这里写你的提醒…");
    assert_eq!(f64::from_bits(s.pos_x_bits), 100.0);
    assert_eq!(f64::from_bits(s.pos_y_bits), 100.0);
    assert_eq!(n_top::settings::DEFAULT_POS_BITS, 100.0f64.to_bits());
    assert_eq!(f64::from_bits(s.bg_alpha_bits), 0.3);
    assert_eq!(DEFAULT_BG_ALPHA_BITS, 0.3f64.to_bits());
    assert_eq!(s.bg_color, "#fffaf0");
    assert_eq!(s.font_size, 16);
    assert_eq!(s.font_color, "#000000");
    assert_eq!(s.hotkey, "Alt+Command+E");
    assert!(s.text_stroke);
    assert!(!s.show_in_dock);
    assert_eq!(s.text_flash_interval_seconds, 300);
    assert!(!s.show_first_paragraph);
}

#[test]
fn clone_keeps_every_field() {
    let mut s = AppSettings::default();
    s.text = String::from("note");
    s.pos_x_bits = (-7.25f64).to_bits();
    s.show_in_dock = true;
    let c = s.clone();
    assert_eq!(c.text, "note");
    assert_eq!(f64::from_bits(c.pos_x_bits), -7.25);
    assert!(c.show_in_dock);
    assert_eq!(c.hotkey, s.hotkey);
}

fn with_text(t: &str) -> AppSettings {
    let mut s = AppSettings::default();
    s.text = String::from(t);
    s
}

#[test]
fn load_prefers_file_then_backup_then_defaults() {
    assert_eq!(loaded_settings(Some(with_text("main")), Some(with_text("backup"))).text, "main");
    assert_eq!(loaded_settings(None, Some(with_text("backup"))).text, "backup");
    assert_eq!(loaded_settings(None, None).text, "在这里写你的提醒…");
}

fn run_save(serialized: bool, temp_written: bool, main_exists: bool) -> Vec<SaveAction> {
    let mut done = first_save_action();
    let mut trace = vec![done];
    while done != SaveAction::Finish {
        let ok = match done {
            SaveAction::Serialize => serialized,
            SaveAction::WriteTemp => temp_written,
            _ => true,
        };
        done = save_step(done, ok, main_exists);
        trace.push(done);
    }
    trace
}

#[test]
fn save_with_existing_file_backs_it_up_first() {
    assert_eq!(
        run_save(true, true, true),
        vec![
            SaveAction::Serialize,
            SaveAction::WriteTemp,
            SaveAction::BackUpMain,
            SaveAction::ReplaceMain,
            SaveAction::Finish
        ]
    );
}

#[test]
fn save_without_existing_file_moves_the_temp_file() {
    assert_eq!(
        run_save(true, true, false),
        vec![SaveAction::Serialize, SaveAction::WriteTemp, SaveAction::ReplaceMain, SaveAction::Finish]
    );
}

#[test]
fn failed_save_leaves_the_file_alone() {
    assert_eq!(run_save(false, true, true), vec![SaveAction::Serialize, SaveAction::Finish]);
    assert_eq!(
        run_save(true, false, true),
        vec![SaveAction::Serialize, SaveAction::WriteTemp, SaveAction::Finish]
    );
}

#[test]
fn backup_and_move_failures_are_ignored() {
    assert_eq!(save_step(SaveAction::BackUpMain, false, true), SaveAction::ReplaceMain);
    assert_eq!(save_step(SaveAction::ReplaceMain, false, true), SaveAction::Finish);
    assert_eq!(save_step(SaveAction::Finish, true, true), SaveAction::Finish);
}

#[test]
fn hotkey_change_detection() {
    assert!(!hotkey_changed("Alt+Command+E", "Alt+Command+E"));
    assert!(hotkey_changed("Alt+Command+E", "Alt+Command+F"));
    assert!(hotkey_changed("", "a"));
}

#[test]
fn hotkey_failure_messages() {
    assert_eq!(hotkey_parse_failure("bad key"), "解析热键失败: bad key");
    assert_eq!(hotkey_register_failure("taken"), "注册热键失败: taken");
}

#[test]
fn dock_policy_follows_the_setting() {
    assert_eq!(dock_policy(true), DockPolicy::Regular);
    assert_eq!(dock_policy(false), DockPolicy::Accessory);
}
