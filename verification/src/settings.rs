//! The persisted settings of the overlay, how they are loaded, and the steps of
//! saving them safely.

use vstd::prelude::*;
use crate::text::{concatenate, str_eq};

verus! {

/// Bit pattern of the default window coordinate, the `f64` value 100.0.
pub const DEFAULT_POS_BITS: u64 = 0x4059_0000_0000_0000;

/// Bit pattern of the default background opacity, the `f64` value 0.3.
pub const DEFAULT_BG_ALPHA_BITS: u64 = 0x3FD3_3333_3333_3333;

/// Settings of the overlay: its text, its place and its appearance.
///
/// The window's place (physical pixels) and the background opacity (0 to 1)
/// are `f64` values; each is carried as the bit pattern of its value, unchanged.
pub struct AppSettings {
    pub text: String,
    pub pos_x_bits: u64,
    pub pos_y_bits: u64,
    pub bg_alpha_bits: u64,
    pub bg_color: String,
    pub font_size: u32,
    pub font_color: String,
    pub hotkey: String,
    pub text_stroke: bool,
    pub show_in_dock: bool,
    pub text_flash_interval_seconds: u32,
    pub show_first_paragraph: bool,
}

/// The settings of a first start.
pub open spec fn is_default_settings(s: AppSettings) -> bool {
    &&& s.text@ == "在这里写你的提醒…"@
    &&& s.pos_x_bits == DEFAULT_POS_BITS
    &&& s.pos_y_bits == DEFAULT_POS_BITS
    &&& s.bg_alpha_bits == DEFAULT_BG_ALPHA_BITS
    &&& s.bg_color@ == "#fffaf0"@
    &&& s.font_size == 16
    &&& s.font_color@ == "#000000"@
    &&& s.hotkey@ == "Alt+Command+E"@
    &&& s.text_stroke
    &&& !s.show_in_dock
    &&& s.text_flash_interval_seconds == 300
    &&& !s.show_first_paragraph
}

impl Default for AppSettings {
    fn default() -> (s: Self)
        ensures
            is_default_settings(s),
    {
        AppSettings {
            text: "在这里写你的提醒…".to_owned(),
            pos_x_bits: DEFAULT_POS_BITS,
            pos_y_bits: DEFAULT_POS_BITS,
            bg_alpha_bits: DEFAULT_BG_ALPHA_BITS,
            bg_color: "#fffaf0".to_owned(),
            font_size: 16,
            font_color: "#000000".to_owned(),
            hotkey: "Alt+Command+E".to_owned(),
            text_stroke: true,
            show_in_dock: false,
            text_flash_interval_seconds: 300,
            show_first_paragraph: false,
        }
    }
}

impl Clone for AppSettings {
    fn clone(&self) -> (c: Self)
        ensures
            c == *self,
    {
        AppSettings {
            text: self.text.clone(),
            pos_x_bits: self.pos_x_bits,
            pos_y_bits: self.pos_y_bits,
            bg_alpha_bits: self.bg_alpha_bits,
            bg_color: self.bg_color.clone(),
            font_size: self.font_size,
            font_color: self.font_color.clone(),
            hotkey: self.hotkey.clone(),
            text_stroke: self.text_stroke,
            show_in_dock: self.show_in_dock,
            text_flash_interval_seconds: self.text_flash_interval_seconds,
            show_first_paragraph: self.show_first_paragraph,
        }
    }
}

/// The settings that start-up uses, from what could be read and parsed of the
/// settings file (`primary`) and of its backup (`backup`): the file if it was
/// read, else the backup if it was read, else the defaults.
pub fn loaded_settings(primary: Option<AppSettings>, backup: Option<AppSettings>) -> (s: AppSettings)
    ensures
        match primary {
            Some(p) => s == p,
            None => match backup {
                Some(b) => s == b,
                None => is_default_settings(s),
            },
        },
{
    match primary {
        Some(p) => p,
        None => match backup {
            Some(b) => b,
            None => AppSettings::default(),
        },
    }
}

/// The steps of saving the settings: serialise them, write them to a temporary
/// file, copy the current file to the backup when there is one, and move the
/// temporary file over the current one.
#[derive(Clone, Copy, PartialEq, Eq, Debug, Structural)]
pub enum SaveAction {
    Serialize,
    WriteTemp,
    BackUpMain,
    ReplaceMain,
    Finish,
}

/// The step after `done`, which `succeeded` or not; `main_exists` tells whether
/// the settings file exists at that moment. A failed serialisation or temporary
/// write ends the save and leaves the settings file alone; failures of the
/// backup copy and of the final move are ignored.
pub open spec fn next_save_action(done: SaveAction, succeeded: bool, main_exists: bool) -> SaveAction {
    match done {
        SaveAction::Serialize => if succeeded { SaveAction::WriteTemp } else { SaveAction::Finish },
        SaveAction::WriteTemp => if !succeeded {
            SaveAction::Finish
        } else if main_exists {
            SaveAction::BackUpMain
        } else {
            SaveAction::ReplaceMain
        },
        SaveAction::BackUpMain => SaveAction::ReplaceMain,
        SaveAction::ReplaceMain => SaveAction::Finish,
        SaveAction::Finish => SaveAction::Finish,
    }
}

/// The first step of a save.
pub fn first_save_action() -> (a: SaveAction)
    ensures
        a == SaveAction::Serialize,
{
    SaveAction::Serialize
}

/// The step after `done`.
pub fn save_step(done: SaveAction, succeeded: bool, main_exists: bool) -> (a: SaveAction)
    ensures
        a == next_save_action(done, succeeded, main_exists),
{
    match done {
        SaveAction::Serialize => if succeeded { SaveAction::WriteTemp } else { SaveAction::Finish },
        SaveAction::WriteTemp => if !succeeded {
            SaveAction::Finish
        } else if main_exists {
            SaveAction::BackUpMain
        } else {
            SaveAction::ReplaceMain
        },
        SaveAction::BackUpMain => SaveAction::ReplaceMain,
        SaveAction::ReplaceMain => SaveAction::Finish,
        SaveAction::Finish => SaveAction::Finish,
    }
}

/// A save runs to its end in at most five steps. The settings file is
/// replaced exactly when serialisation and the temporary write succeeded, and
/// the old file is copied to the backup first exactly when it existed.
pub proof fn lemma_save_sequence(
    serialized: bool,
    temp_written: bool,
    main_exists: bool,
    backed_up: bool,
    replaced: bool,
)
    ensures
        ({
            let a1 = next_save_action(SaveAction::Serialize, serialized, main_exists);
            let a2 = next_save_action(a1, temp_written, main_exists);
            let a3 = next_save_action(a2, backed_up, main_exists);
            let a4 = next_save_action(a3, replaced, main_exists);
            &&& a4 == SaveAction::Finish
            &&& (a2 == SaveAction::ReplaceMain || a3 == SaveAction::ReplaceMain) <==> (serialized && temp_written)
            &&& a2 == SaveAction::BackUpMain <==> (serialized && temp_written && main_exists)
            &&& a1 != SaveAction::ReplaceMain && a1 != SaveAction::BackUpMain
        }),
{
}

/// Whether the hotkey must be registered again after the settings change from
/// hotkey `old` to hotkey `new`: exactly when it changed.
pub fn hotkey_changed(old: &str, new: &str) -> (r: bool)
    ensures
        r == (old@ != new@),
{
    !str_eq(old, new)
}

/// The message reported when the hotkey text cannot be parsed, `detail` being
/// the parser's own message.
pub fn hotkey_parse_failure(detail: &str) -> (m: String)
    ensures
        m@ == "解析热键失败: "@ + detail@,
{
    concatenate("解析热键失败: ", detail)
}

/// The message reported when the parsed hotkey cannot be registered, `detail`
/// being the registrar's own message.
pub fn hotkey_register_failure(detail: &str) -> (m: String)
    ensures
        m@ == "注册热键失败: "@ + detail@,
{
    concatenate("注册热键失败: ", detail)
}

/// How the application shows in the Dock.
#[derive(Clone, Copy, PartialEq, Eq, Debug, Structural)]
pub enum DockPolicy {
    /// A regular application with a Dock icon.
    Regular,
    /// A menu-bar-only application without a Dock icon.
    Accessory,
}

/// The Dock policy for the `show_in_dock` setting.
pub fn dock_policy(show_in_dock: bool) -> (p: DockPolicy)
    ensures
        p == (if show_in_dock { DockPolicy::Regular } else { DockPolicy::Accessory }),
{
    if show_in_dock {
        DockPolicy::Regular
    } else {
        DockPolicy::Accessory
    }
}

} // verus!
