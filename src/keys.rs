use vstd::prelude::*;
use vstd::string::StrSliceExecFns;

verus! {

/// A keyboard key that can serve as the clicker's trigger.
#[derive(Debug, Clone, Copy, PartialEq, Eq, Structural)]
pub enum TriggerKey {
    BackspaceKey,
    TabKey,
    EnterKey,
    EscapeKey,
    SpaceKey,
    PageUpKey,
    PageDownKey,
    EndKey,
    HomeKey,
    LeftKey,
    UpKey,
    RightKey,
    DownKey,
    InsertKey,
    DeleteKey,
    Numrow0Key,
    Numrow1Key,
    Numrow2Key,
    Numrow3Key,
    Numrow4Key,
    Numrow5Key,
    Numrow6Key,
    Numrow7Key,
    Numrow8Key,
    Numrow9Key,
    AKey,
    BKey,
    CKey,
    DKey,
    EKey,
    FKey,
    GKey,
    HKey,
    IKey,
    JKey,
    KKey,
    LKey,
    MKey,
    NKey,
    OKey,
    PKey,
    QKey,
    RKey,
    SKey,
    TKey,
    UKey,
    VKey,
    WKey,
    XKey,
    YKey,
    ZKey,
    LSuper,
    NumLockKey,
    ScrollLockKey,
    CapsLockKey,
    LShiftKey,
    LControlKey,
    LAltKey,
    F1Key,
    F2Key,
    F3Key,
    F4Key,
    F5Key,
    F6Key,
    F7Key,
    F8Key,
    F9Key,
    F10Key,
    F11Key,
    F12Key,
    CommaKey,
    PeriodKey,
    MinusKey,
    QuoteKey,
    SemicolonKey,
    LBracketKey,
    RBracketKey,
    EqualKey,
    BackquoteKey,
    SlashKey,
    BackslashKey,
}

/// The key that an unrecognised key name stands for.
pub const FALLBACK_KEY: TriggerKey = TriggerKey::F6Key;

/// The key that a session binds before any key has been chosen.
pub const DEFAULT_TRIGGER_KEY: TriggerKey = TriggerKey::BackquoteKey;

/// The key named by `name`: letters in either case, digits of the number row,
/// named keys as the front-end reports them, and punctuation; any other name
/// stands for the fallback key.
pub open spec fn key_for_name(name: Seq<char>) -> TriggerKey {
    if name == "Backspace"@ {
        TriggerKey::BackspaceKey
    } else if name == "Tab"@ {
        TriggerKey::TabKey
    } else if name == "Enter"@ {
        TriggerKey::EnterKey
    } else if name == "Escape"@ {
        TriggerKey::EscapeKey
    } else if name == " "@ {
        TriggerKey::SpaceKey
    } else if name == "PageUp"@ {
        TriggerKey::PageUpKey
    } else if name == "PageDown"@ {
        TriggerKey::PageDownKey
    } else if name == "End"@ {
        TriggerKey::EndKey
    } else if name == "Home"@ {
        TriggerKey::HomeKey
    } else if name == "ArrowLeft"@ {
        TriggerKey::LeftKey
    } else if name == "ArrowUp"@ {
        TriggerKey::UpKey
    } else if name == "ArrowRight"@ {
        TriggerKey::RightKey
    } else if name == "ArrowDown"@ {
        TriggerKey::DownKey
    } else if name == "Insert"@ {
        TriggerKey::InsertKey
    } else if name == "Delete"@ {
        TriggerKey::DeleteKey
    } else if name == "0"@ {
        TriggerKey::Numrow0Key
    } else if name == "1"@ {
        TriggerKey::Numrow1Key
    } else if name == "2"@ {
        TriggerKey::Numrow2Key
    } else if name == "3"@ {
        TriggerKey::Numrow3Key
    } else if name == "4"@ {
        TriggerKey::Numrow4Key
    } else if name == "5"@ {
        TriggerKey::Numrow5Key
    } else if name == "6"@ {
        TriggerKey::Numrow6Key
    } else if name == "7"@ {
        TriggerKey::Numrow7Key
    } else if name == "8"@ {
        TriggerKey::Numrow8Key
    } else if name == "9"@ {
        TriggerKey::Numrow9Key
    } else if name == "a"@ || name == "A"@ {
        TriggerKey::AKey
    } else if name == "b"@ || name == "B"@ {
        TriggerKey::BKey
    } else if name == "c"@ || name == "C"@ {
        TriggerKey::CKey
    } else if name == "d"@ || name == "D"@ {
        TriggerKey::DKey
    } else if name == "e"@ || name == "E"@ {
        TriggerKey::EKey
    } else if name == "f"@ || name == "F"@ {
        TriggerKey::FKey
    } else if name == "g"@ || name == "G"@ {
        TriggerKey::GKey
    } else if name == "h"@ || name == "H"@ {
        TriggerKey::HKey
    } else if name == "i"@ || name == "I"@ {
        TriggerKey::IKey
    } else if name == "j"@ || name == "J"@ {
        TriggerKey::JKey
    } else if name == "k"@ || name == "K"@ {
        TriggerKey::KKey
    } else if name == "l"@ || name == "L"@ {
        TriggerKey::LKey
    } else if name == "m"@ || name == "M"@ {
        TriggerKey::MKey
    } else if name == "n"@ || name == "N"@ {
        TriggerKey::NKey
    } else if name == "o"@ || name == "O"@ {
        TriggerKey::OKey
    } else if name == "p"@ || name == "P"@ {
        TriggerKey::PKey
    } else if name == "q"@ || name == "Q"@ {
        TriggerKey::QKey
    } else if name == "r"@ || name == "R"@ {
        TriggerKey::RKey
    } else if name == "s"@ || name == "S"@ {
        TriggerKey::SKey
    } else if name == "t"@ || name == "T"@ {
        TriggerKey::TKey
    } else if name == "u"@ || name == "U"@ {
        TriggerKey::UKey
    } else if name == "v"@ || name == "V"@ {
        TriggerKey::VKey
    } else if name == "w"@ || name == "W"@ {
        TriggerKey::WKey
    } else if name == "x"@ || name == "X"@ {
        TriggerKey::XKey
    } else if name == "y"@ || name == "Y"@ {
        TriggerKey::YKey
    } else if name == "z"@ || name == "Z"@ {
        TriggerKey::ZKey
    } else if name == "Meta"@ {
        TriggerKey::LSuper
    } else if name == "NumLock"@ {
        TriggerKey::NumLockKey
    } else if name == "ScrollLock"@ {
        TriggerKey::ScrollLockKey
    } else if name == "CapsLock"@ {
        TriggerKey::CapsLockKey
    } else if name == "Shift"@ {
        TriggerKey::LShiftKey
    } else if name == "Control"@ {
        TriggerKey::LControlKey
    } else if name == "Alt"@ {
        TriggerKey::LAltKey
    } else if name == "F1"@ {
        TriggerKey::F1Key
    } else if name == "F2"@ {
        TriggerKey::F2Key
    } else if name == "F3"@ {
        TriggerKey::F3Key
    } else if name == "F4"@ {
        TriggerKey::F4Key
    } else if name == "F5"@ {
        TriggerKey::F5Key
    } else if name == "F6"@ {
        TriggerKey::F6Key
    } else if name == "F7"@ {
        TriggerKey::F7Key
    } else if name == "F8"@ {
        TriggerKey::F8Key
    } else if name == "F9"@ {
        TriggerKey::F9Key
    } else if name == "F10"@ {
        TriggerKey::F10Key
    } else if name == "F11"@ {
        TriggerKey::F11Key
    } else if name == "F12"@ {
        TriggerKey::F12Key
    } else if name == ","@ {
        TriggerKey::CommaKey
    } else if name == "."@ {
        TriggerKey::PeriodKey
    } else if name == "-"@ {
        TriggerKey::MinusKey
    } else if name == "'"@ {
        TriggerKey::QuoteKey
    } else if name == ";"@ {
        TriggerKey::SemicolonKey
    } else if name == "["@ {
        TriggerKey::LBracketKey
    } else if name == "]"@ {
        TriggerKey::RBracketKey
    } else if name == "="@ {
        TriggerKey::EqualKey
    } else if name == "`"@ {
        TriggerKey::BackquoteKey
    } else if name == "/"@ {
        TriggerKey::SlashKey
    } else if name == "\\"@ {
        TriggerKey::BackslashKey
    } else {
        FALLBACK_KEY
    }
}

/// Whether two strings hold the same characters.
pub fn same_text(a: &str, b: &str) -> (r: bool)
    ensures
        r == (a@ == b@),
{
    let n = a.unicode_len();
    if n != b.unicode_len() {
        return false;
    }
    let mut i: usize = 0;
    while i < n
        invariant
            n == a@.len(),
            n == b@.len(),
            i <= n,
            a@.subrange(0, i as int) == b@.subrange(0, i as int),
        decreases n - i,
    {
        if a.get_char(i) != b.get_char(i) {
            return false;
        }
        proof {
            assert(a@.subrange(0, i + 1) == a@.subrange(0, i as int).push(a@[i as int]));
            assert(b@.subrange(0, i + 1) == b@.subrange(0, i as int).push(b@[i as int]));
        }
        i = i + 1;
    }
    proof {
        assert(a@ == a@.subrange(0, n as int));
        assert(b@ == b@.subrange(0, n as int));
    }
    true
}

/// Maps a platform-neutral key name to the key it designates.
pub fn string_to_keybdkey(key: &str) -> (r: TriggerKey)
    ensures
        r == key_for_name(key@),
{
    if same_text(key, "Backspace") {
        TriggerKey::BackspaceKey
    } else if same_text(key, "Tab") {
        TriggerKey::TabKey
    } else if same_text(key, "Enter") {
        TriggerKey::EnterKey
    } else if same_text(key, "Escape") {
        TriggerKey::EscapeKey
    } else if same_text(key, " ") {
        TriggerKey::SpaceKey
    } else if same_text(key, "PageUp") {
        TriggerKey::PageUpKey
    } else if same_text(key, "PageDown") {
        TriggerKey::PageDownKey
    } else if same_text(key, "End") {
        TriggerKey::EndKey
    } else if same_text(key, "Home") {
        TriggerKey::HomeKey
    } else if same_text(key, "ArrowLeft") {
        TriggerKey::LeftKey
    } else if same_text(key, "ArrowUp") {
        TriggerKey::UpKey
    } else if same_text(key, "ArrowRight") {
        TriggerKey::RightKey
    } else if same_text(key, "ArrowDown") {
        TriggerKey::DownKey
    } else if same_text(key, "Insert") {
        TriggerKey::InsertKey
    } else if same_text(key, "Delete") {
        TriggerKey::DeleteKey
    } else if same_text(key, "0") {
        TriggerKey::Numrow0Key
    } else if same_text(key, "1") {
        TriggerKey::Numrow1Key
    } else if same_text(key, "2") {
        TriggerKey::Numrow2Key
    } else if same_text(key, "3") {
        TriggerKey::Numrow3Key
    } else if same_text(key, "4") {
        TriggerKey::Numrow4Key
    } else if same_text(key, "5") {
        TriggerKey::Numrow5Key
    } else if same_text(key, "6") {
        TriggerKey::Numrow6Key
    } else if same_text(key, "7") {
        TriggerKey::Numrow7Key
    } else if same_text(key, "8") {
        TriggerKey::Numrow8Key
    } else if same_text(key, "9") {
        TriggerKey::Numrow9Key
    } else if same_text(key, "a") || same_text(key, "A") {
        TriggerKey::AKey
    } else if same_text(key, "b") || same_text(key, "B") {
        TriggerKey::BKey
    } else if same_text(key, "c") || same_text(key, "C") {
        TriggerKey::CKey
    } else if same_text(key, "d") || same_text(key, "D") {
        TriggerKey::DKey
    } else if same_text(key, "e") || same_text(key, "E") {
        TriggerKey::EKey
    } else if same_text(key, "f") || same_text(key, "F") {
        TriggerKey::FKey
    } else if same_text(key, "g") || same_text(key, "G") {
        TriggerKey::GKey
    } else if same_text(key, "h") || same_text(key, "H") {
        TriggerKey::HKey
    } else if same_text(key, "i") || same_text(key, "I") {
        TriggerKey::IKey
    } else if same_text(key, "j") || same_text(key, "J") {
        TriggerKey::JKey
    } else if same_text(key, "k") || same_text(key, "K") {
        TriggerKey::KKey
    } else if same_text(key, "l") || same_text(key, "L") {
        TriggerKey::LKey
    } else if same_text(key, "m") || same_text(key, "M") {
        TriggerKey::MKey
    } else if same_text(key, "n") || same_text(key, "N") {
        TriggerKey::NKey
    } else if same_text(key, "o") || same_text(key, "O") {
        TriggerKey::OKey
    } else if same_text(key, "p") || same_text(key, "P") {
        TriggerKey::PKey
    } else if same_text(key, "q") || same_text(key, "Q") {
        TriggerKey::QKey
    } else if same_text(key, "r") || same_text(key, "R") {
        TriggerKey::RKey
    } else if same_text(key, "s") || same_text(key, "S") {
        TriggerKey::SKey
    } else if same_text(key, "t") || same_text(key, "T") {
        TriggerKey::TKey
    } else if same_text(key, "u") || same_text(key, "U") {
        TriggerKey::UKey
    } else if same_text(key, "v") || same_text(key, "V") {
        TriggerKey::VKey
    } else if same_text(key, "w") || same_text(key, "W") {
        TriggerKey::WKey
    } else if same_text(key, "x") || same_text(key, "X") {
        TriggerKey::XKey
    } else if same_text(key, "y") || same_text(key, "Y") {
        TriggerKey::YKey
    } else if same_text(key, "z") || same_text(key, "Z") {
        TriggerKey::ZKey
    } else if same_text(key, "Meta") {
        TriggerKey::LSuper
    } else if same_text(key, "NumLock") {
        TriggerKey::NumLockKey
    } else if same_text(key, "ScrollLock") {
        TriggerKey::ScrollLockKey
    } else if same_text(key, "CapsLock") {
        TriggerKey::CapsLockKey
    } else if same_text(key, "Shift") {
        TriggerKey::LShiftKey
    } else if same_text(key, "Control") {
        TriggerKey::LControlKey
    } else if same_text(key, "Alt") {
        TriggerKey::LAltKey
    } else if same_text(key, "F1") {
        TriggerKey::F1Key
    } else if same_text(key, "F2") {
        TriggerKey::F2Key
    } else if same_text(key, "F3") {
        TriggerKey::F3Key
    } else if same_text(key, "F4") {
        TriggerKey::F4Key
    } else if same_text(key, "F5") {
        TriggerKey::F5Key
    } else if same_text(key, "F6") {
        TriggerKey::F6Key
    } else if same_text(key, "F7") {
        TriggerKey::F7Key
    } else if same_text(key, "F8") {
        TriggerKey::F8Key
    } else if same_text(key, "F9") {
        TriggerKey::F9Key
    } else if same_text(key, "F10") {
        TriggerKey::F10Key
    } else if same_text(key, "F11") {
        TriggerKey::F11Key
    } else if same_text(key, "F12") {
        TriggerKey::F12Key
    } else if same_text(key, ",") {
        TriggerKey::CommaKey
    } else if same_text(key, ".") {
        TriggerKey::PeriodKey
    } else if same_text(key, "-") {
        TriggerKey::MinusKey
    } else if same_text(key, "'") {
        TriggerKey::QuoteKey
    } else if same_text(key, ";") {
        TriggerKey::SemicolonKey
    } else if same_text(key, "[") {
        TriggerKey::LBracketKey
    } else if same_text(key, "]") {
        TriggerKey::RBracketKey
    } else if same_text(key, "=") {
        TriggerKey::EqualKey
    } else if same_text(key, "`") {
        TriggerKey::BackquoteKey
    } else if same_text(key, "/") {
        TriggerKey::SlashKey
    } else if same_text(key, "\\") {
        TriggerKey::BackslashKey
    } else {
        FALLBACK_KEY
    }
}

} // verus!
