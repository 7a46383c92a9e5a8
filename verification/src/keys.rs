//! The event kind and the label tokens shared by both platforms.
use vstd::prelude::*;

verus! {

/// Whether a key transition is a press or a release.
#[derive(Copy, Clone, PartialEq, Eq, Structural, Debug)]
pub enum PressEvent {
    Press,
    Release,
}

/// The two-letter mark that stands for an event kind in a log line.
pub open spec fn spec_mark(e: PressEvent) -> Seq<char> {
    match e {
        PressEvent::Press => "PR"@,
        PressEvent::Release => "RE"@,
    }
}

impl PressEvent {
    /// The two-letter mark that stands for this kind in a log line.
    pub fn as_mark(&self) -> (r: &'static str)
        ensures
            r@ == spec_mark(*self),
    {
        match self {
            PressEvent::Press => "PR",
            PressEvent::Release => "RE",
        }
    }
}

/// Namespace for the bracketed label tokens of keys that have no
/// printable character. Each token is a fixed multi-character string,
/// distinct from every single printable character, so downstream text
/// processing can tell keys apart from literal characters.
pub struct Key;

impl Key {
    /// Sentinel label for a key code outside the platform's table.
    pub const UK: &'static str = "<UK>";

    pub const ESC: &'static str = "<ESC>";
    pub const BACKSPACE: &'static str = "<Backspace>";
    pub const TAB: &'static str = "<Tab>";
    pub const ENTER: &'static str = "<Enter>";
    pub const LCTRL: &'static str = "<LCtrl>";
    pub const RCTRL: &'static str = "<RCtrl>";
    pub const LSHIFT: &'static str = "<LShift>";
    pub const RSHIFT: &'static str = "<RShift>";
    pub const LALT: &'static str = "<LAlt>";
    pub const RALT: &'static str = "<RAlt>";
    pub const SPACE: &'static str = "<Space>";
    pub const F1: &'static str = "<F1>";
    pub const F2: &'static str = "<F2>";
    pub const F3: &'static str = "<F3>";
    pub const F4: &'static str = "<F4>";
    pub const F5: &'static str = "<F5>";
    pub const F6: &'static str = "<F6>";
    pub const F7: &'static str = "<F7>";
    pub const F8: &'static str = "<F8>";
    pub const F9: &'static str = "<F9>";
    pub const F10: &'static str = "<F10>";
    pub const F11: &'static str = "<F11>";
    pub const F12: &'static str = "<F12>";
    pub const UP: &'static str = "<Up>";
    pub const LEFT: &'static str = "<Left>";
    pub const RIGHT: &'static str = "<Right>";
    pub const DOWN: &'static str = "<Down>";
    pub const HOME: &'static str = "<Home>";
    pub const END: &'static str = "<End>";
    pub const PAGE_UP: &'static str = "<PageUp>";
    pub const PAGE_DOWN: &'static str = "<PageDown>";
    pub const INSERT: &'static str = "<Insert>";
    pub const DELETE: &'static str = "<Delete>";
    pub const SYS_RQ: &'static str = "<SysRq>";
    pub const CAPS_LOCK: &'static str = "<CapsLock>";
    pub const SCROL_LOCK: &'static str = "<ScrollLock>";
    pub const NUM_LOCK: &'static str = "<NumLock>";
    pub const KP0: &'static str = "<KP0>";
    pub const KP1: &'static str = "<KP1>";
    pub const KP2: &'static str = "<KP2>";
    pub const KP3: &'static str = "<KP3>";
    pub const KP4: &'static str = "<KP4>";
    pub const KP5: &'static str = "<KP5>";
    pub const KP6: &'static str = "<KP6>";
    pub const KP7: &'static str = "<KP7>";
    pub const KP8: &'static str = "<KP8>";
    pub const KP9: &'static str = "<KP9>";
    pub const KP_STAR: &'static str = "<KP*>";
    pub const KP_DIV: &'static str = "<KP/>";
    pub const KP_ADD: &'static str = "<KP+>";
    pub const KP_SUB: &'static str = "<KP->";
    pub const KP_POINT: &'static str = "<KP.>";
    pub const KP_ENTER: &'static str = "<KPEnter>";
}

/// Bracketed label tokens for keys that exist only on the polling
/// platform's keyboards.
pub struct WinKey;

impl WinKey {
    pub const F13: &'static str = "<F13>";
    pub const F14: &'static str = "<F14>";
    pub const F15: &'static str = "<F15>";
    pub const F16: &'static str = "<F16>";
    pub const F17: &'static str = "<F17>";
    pub const F18: &'static str = "<F18>";
    pub const F19: &'static str = "<F19>";
    pub const F20: &'static str = "<F20>";
    pub const F21: &'static str = "<F21>";
    pub const F22: &'static str = "<F22>";
    pub const F23: &'static str = "<F23>";
    pub const F24: &'static str = "<F24>";
    pub const PRINT_SCREEN: &'static str = "<PrintScreen>";
    pub const PAUSE: &'static str = "<Pause>";
    pub const LWIN: &'static str = "<LWin>";
    pub const RWIN: &'static str = "<RWin>";
    pub const CLEAR: &'static str = "<Clear>";
    pub const SLEEP: &'static str = "<Sleep>";
    pub const SEPARATOR: &'static str = "<Separator>";
}

/// All the [`Key`] tokens are non-empty strings.
pub(crate) proof fn lemma_key_tokens_nonempty()
    ensures
        Key::UK@.len() > 0,
        Key::ESC@.len() > 0,
        Key::BACKSPACE@.len() > 0,
        Key::TAB@.len() > 0,
        Key::ENTER@.len() > 0,
        Key::LCTRL@.len() > 0,
        Key::RCTRL@.len() > 0,
        Key::LSHIFT@.len() > 0,
        Key::RSHIFT@.len() > 0,
        Key::LALT@.len() > 0,
        Key::RALT@.len() > 0,
        Key::SPACE@.len() > 0,
        Key::F1@.len() > 0,
        Key::F2@.len() > 0,
        Key::F3@.len() > 0,
        Key::F4@.len() > 0,
        Key::F5@.len() > 0,
        Key::F6@.len() > 0,
        Key::F7@.len() > 0,
        Key::F8@.len() > 0,
        Key::F9@.len() > 0,
        Key::F10@.len() > 0,
        Key::F11@.len() > 0,
        Key::F12@.len() > 0,
        Key::UP@.len() > 0,
        Key::LEFT@.len() > 0,
        Key::RIGHT@.len() > 0,
        Key::DOWN@.len() > 0,
        Key::HOME@.len() > 0,
        Key::END@.len() > 0,
        Key::PAGE_UP@.len() > 0,
        Key::PAGE_DOWN@.len() > 0,
        Key::INSERT@.len() > 0,
        Key::DELETE@.len() > 0,
        Key::SYS_RQ@.len() > 0,
        Key::CAPS_LOCK@.len() > 0,
        Key::SCROL_LOCK@.len() > 0,
        Key::NUM_LOCK@.len() > 0,
        Key::KP0@.len() > 0,
        Key::KP1@.len() > 0,
        Key::KP2@.len() > 0,
        Key::KP3@.len() > 0,
        Key::KP4@.len() > 0,
        Key::KP5@.len() > 0,
        Key::KP6@.len() > 0,
        Key::KP7@.len() > 0,
        Key::KP8@.len() > 0,
        Key::KP9@.len() > 0,
        Key::KP_STAR@.len() > 0,
        Key::KP_DIV@.len() > 0,
        Key::KP_ADD@.len() > 0,
        Key::KP_SUB@.len() > 0,
        Key::KP_POINT@.len() > 0,
        Key::KP_ENTER@.len() > 0,
{
    reveal_strlit("<UK>");
    reveal_strlit("<ESC>");
    reveal_strlit("<Backspace>");
    reveal_strlit("<Tab>");
    reveal_strlit("<Enter>");
    reveal_strlit("<LCtrl>");
    reveal_strlit("<RCtrl>");
    reveal_strlit("<LShift>");
    reveal_strlit("<RShift>");
    reveal_strlit("<LAlt>");
    reveal_strlit("<RAlt>");
    reveal_strlit("<Space>");
    reveal_strlit("<F1>");
    reveal_strlit("<F2>");
    reveal_strlit("<F3>");
    reveal_strlit("<F4>");
    reveal_strlit("<F5>");
    reveal_strlit("<F6>");
    reveal_strlit("<F7>");
    reveal_strlit("<F8>");
    reveal_strlit("<F9>");
    reveal_strlit("<F10>");
    reveal_strlit("<F11>");
    reveal_strlit("<F12>");
    reveal_strlit("<Up>");
    reveal_strlit("<Left>");
    reveal_strlit("<Right>");
    reveal_strlit("<Down>");
    reveal_strlit("<Home>");
    reveal_strlit("<End>");
    reveal_strlit("<PageUp>");
    reveal_strlit("<PageDown>");
    reveal_strlit("<Insert>");
    reveal_strlit("<Delete>");
    reveal_strlit("<SysRq>");
    reveal_strlit("<CapsLock>");
    reveal_strlit("<ScrollLock>");
    reveal_strlit("<NumLock>");
    reveal_strlit("<KP0>");
    reveal_strlit("<KP1>");
    reveal_strlit("<KP2>");
    reveal_strlit("<KP3>");
    reveal_strlit("<KP4>");
    reveal_strlit("<KP5>");
    reveal_strlit("<KP6>");
    reveal_strlit("<KP7>");
    reveal_strlit("<KP8>");
    reveal_strlit("<KP9>");
    reveal_strlit("<KP*>");
    reveal_strlit("<KP/>");
    reveal_strlit("<KP+>");
    reveal_strlit("<KP->");
    reveal_strlit("<KP.>");
    reveal_strlit("<KPEnter>");
}

/// All the [`WinKey`] tokens are non-empty strings.
pub(crate) proof fn lemma_win_tokens_nonempty()
    ensures
        WinKey::F13@.len() > 0,
        WinKey::F14@.len() > 0,
        WinKey::F15@.len() > 0,
        WinKey::F16@.len() > 0,
        WinKey::F17@.len() > 0,
        WinKey::F18@.len() > 0,
        WinKey::F19@.len() > 0,
        WinKey::F20@.len() > 0,
        WinKey::F21@.len() > 0,
        WinKey::F22@.len() > 0,
        WinKey::F23@.len() > 0,
        WinKey::F24@.len() > 0,
        WinKey::PRINT_SCREEN@.len() > 0,
        WinKey::PAUSE@.len() > 0,
        WinKey::LWIN@.len() > 0,
        WinKey::RWIN@.len() > 0,
        WinKey::CLEAR@.len() > 0,
        WinKey::SLEEP@.len() > 0,
        WinKey::SEPARATOR@.len() > 0,
{
    reveal_strlit("<F13>");
    reveal_strlit("<F14>");
    reveal_strlit("<F15>");
    reveal_strlit("<F16>");
    reveal_strlit("<F17>");
    reveal_strlit("<F18>");
    reveal_strlit("<F19>");
    reveal_strlit("<F20>");
    reveal_strlit("<F21>");
    reveal_strlit("<F22>");
    reveal_strlit("<F23>");
    reveal_strlit("<F24>");
    reveal_strlit("<PrintScreen>");
    reveal_strlit("<Pause>");
    reveal_strlit("<LWin>");
    reveal_strlit("<RWin>");
    reveal_strlit("<Clear>");
    reveal_strlit("<Sleep>");
    reveal_strlit("<Separator>");
}

} // verus!
