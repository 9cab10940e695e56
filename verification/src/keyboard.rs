//! Keyboard model: key codes, modifier bits, bindings, and the binding
//! table that names each intent the browser understands.  The terminal
//! event source is outside; it hands the store plain `KeyEvent` values.

use vstd::prelude::*;
use vstd::string::StrSliceExecFns;

use crate::textops::str_eq;

verus! {

/// No modifier held.
pub const MODIFIER_NONE: u8 = 0;

/// The shift modifier bit.
pub const MODIFIER_SHIFT: u8 = 1;

/// The control modifier bit.
pub const MODIFIER_CONTROL: u8 = 2;

/// The alt modifier bit.
pub const MODIFIER_ALT: u8 = 4;

/// A key, as the terminal reports it.
#[derive(Clone, Copy, Debug, PartialEq, Eq, Structural)]
pub enum KeyCode {
    Backspace,
    Enter,
    Left,
    Right,
    Up,
    Down,
    Home,
    End,
    PageUp,
    PageDown,
    Tab,
    BackTab,
    Delete,
    Insert,
    F(u8),
    Char(char),
    Null,
    Esc,
}

/// One key press with its modifier bits.
#[derive(Clone, Copy, Debug, PartialEq, Eq, Structural)]
pub struct KeyEvent {
    pub code: KeyCode,
    pub modifiers: u8,
}

/// A configured binding: a key and the exact modifier set it requires.
#[derive(Clone, Copy, Debug, PartialEq, Eq, Structural)]
pub struct KeyBinding {
    pub key: KeyCode,
    pub modifier: u8,
}

impl KeyBinding {
    /// A binding on a bare key.
    pub fn new(key: KeyCode) -> (r: Self)
        ensures
            r.key == key,
            r.modifier == MODIFIER_NONE,
    {
        KeyBinding { key, modifier: MODIFIER_NONE }
    }

    /// A binding on a key with modifiers.
    pub fn with_modifiers(key: KeyCode, modifier: u8) -> (r: Self)
        ensures
            r.key == key,
            r.modifier == modifier,
    {
        KeyBinding { key, modifier }
    }

    /// Whether the event presses exactly this binding.
    pub fn is_pressed(&self, evt: KeyEvent) -> (r: bool)
        ensures
            r == (evt.code == self.key && evt.modifiers == self.modifier),
    {
        evt.code == self.key && evt.modifiers == self.modifier
    }
}

/// The key a configuration name denotes; any unrecognized name stands
/// for its own first character.
pub open spec fn spec_map_key(name: Seq<char>) -> KeyCode {
    if name == "backspace"@ {
        KeyCode::Backspace
    } else if name == "enter"@ {
        KeyCode::Enter
    } else if name == "left"@ {
        KeyCode::Left
    } else if name == "right"@ {
        KeyCode::Right
    } else if name == "up"@ {
        KeyCode::Up
    } else if name == "down"@ {
        KeyCode::Down
    } else if name == "home"@ {
        KeyCode::Home
    } else if name == "end"@ {
        KeyCode::End
    } else if name == "page_up"@ {
        KeyCode::PageUp
    } else if name == "page_down"@ {
        KeyCode::PageDown
    } else if name == "tab"@ {
        KeyCode::Tab
    } else if name == "back_tab"@ {
        KeyCode::BackTab
    } else if name == "delete"@ {
        KeyCode::Delete
    } else if name == "insert"@ {
        KeyCode::Insert
    } else if name == "esc"@ {
        KeyCode::Esc
    } else if name == "f1"@ {
        KeyCode::F(1)
    } else if name == "f2"@ {
        KeyCode::F(2)
    } else if name == "f3"@ {
        KeyCode::F(3)
    } else if name == "f4"@ {
        KeyCode::F(4)
    } else if name == "f5"@ {
        KeyCode::F(5)
    } else if name == "f6"@ {
        KeyCode::F(6)
    } else if name == "f7"@ {
        KeyCode::F(7)
    } else if name == "f8"@ {
        KeyCode::F(8)
    } else if name == "f9"@ {
        KeyCode::F(9)
    } else if name == "f10"@ {
        KeyCode::F(10)
    } else if name == "f11"@ {
        KeyCode::F(11)
    } else if name == "f12"@ {
        KeyCode::F(12)
    } else {
        KeyCode::Char(name[0])
    }
}

/// Maps a configuration key name to the key it denotes.
pub fn map_key(key: &str) -> (r: KeyCode)
    requires
        key@.len() > 0,
    ensures
        r == spec_map_key(key@),
{
    if str_eq(key, "backspace") {
        KeyCode::Backspace
    } else if str_eq(key, "enter") {
        KeyCode::Enter
    } else if str_eq(key, "left") {
        KeyCode::Left
    } else if str_eq(key, "right") {
        KeyCode::Right
    } else if str_eq(key, "up") {
        KeyCode::Up
    } else if str_eq(key, "down") {
        KeyCode::Down
    } else if str_eq(key, "home") {
        KeyCode::Home
    } else if str_eq(key, "end") {
        KeyCode::End
    } else if str_eq(key, "page_up") {
        KeyCode::PageUp
    } else if str_eq(key, "page_down") {
        KeyCode::PageDown
    } else if str_eq(key, "tab") {
        KeyCode::Tab
    } else if str_eq(key, "back_tab") {
        KeyCode::BackTab
    } else if str_eq(key, "delete") {
        KeyCode::Delete
    } else if str_eq(key, "insert") {
        KeyCode::Insert
    } else if str_eq(key, "esc") {
        KeyCode::Esc
    } else if str_eq(key, "f1") {
        KeyCode::F(1)
    } else if str_eq(key, "f2") {
        KeyCode::F(2)
    } else if str_eq(key, "f3") {
        KeyCode::F(3)
    } else if str_eq(key, "f4") {
        KeyCode::F(4)
    } else if str_eq(key, "f5") {
        KeyCode::F(5)
    } else if str_eq(key, "f6") {
        KeyCode::F(6)
    } else if str_eq(key, "f7") {
        KeyCode::F(7)
    } else if str_eq(key, "f8") {
        KeyCode::F(8)
    } else if str_eq(key, "f9") {
        KeyCode::F(9)
    } else if str_eq(key, "f10") {
        KeyCode::F(10)
    } else if str_eq(key, "f11") {
        KeyCode::F(11)
    } else if str_eq(key, "f12") {
        KeyCode::F(12)
    } else {
        KeyCode::Char(key.get_char(0))
    }
}

/// The modifier a configuration name denotes: `c`, `s` or `a`.
pub fn map_modifier(modifier: &str) -> (r: u8)
    ensures
        r == (if modifier@ == "c"@ {
            MODIFIER_CONTROL
        } else if modifier@ == "s"@ {
            MODIFIER_SHIFT
        } else if modifier@ == "a"@ {
            MODIFIER_ALT
        } else {
            MODIFIER_NONE
        }),
{
    if str_eq(modifier, "c") {
        MODIFIER_CONTROL
    } else if str_eq(modifier, "s") {
        MODIFIER_SHIFT
    } else if str_eq(modifier, "a") {
        MODIFIER_ALT
    } else {
        MODIFIER_NONE
    }
}

/// The binding of every intent the browser understands.
#[derive(Clone, Copy, Debug, PartialEq, Eq, Structural)]
pub struct KeyboardConfig {
    pub quit: KeyBinding,
    pub focus_left_panel: KeyBinding,
    pub focus_right_panel: KeyBinding,
    pub move_down: KeyBinding,
    pub move_up: KeyBinding,
    pub next_tab: KeyBinding,
    pub prev_tab: KeyBinding,
    pub close: KeyBinding,
    pub open: KeyBinding,
    pub open_as_tab: KeyBinding,
    pub navigate_up: KeyBinding,
    pub delete: KeyBinding,
    pub move_left: KeyBinding,
    pub move_right: KeyBinding,
    pub move_fs_item: KeyBinding,
    pub rename: KeyBinding,
    pub create: KeyBinding,
    pub accept: KeyBinding,
    pub copy_to_left: KeyBinding,
    pub copy_to_right: KeyBinding,
    pub copy_fs_item: KeyBinding,
    pub search_in_panel: KeyBinding,
    pub select_prev: KeyBinding,
    pub select_next: KeyBinding,
    pub change_focus_panels: KeyBinding,
    pub command_1: KeyBinding,
    pub command_2: KeyBinding,
    pub command_3: KeyBinding,
    pub command_4: KeyBinding,
    pub command_5: KeyBinding,
    pub command_6: KeyBinding,
    pub command_7: KeyBinding,
    pub command_8: KeyBinding,
    pub command_9: KeyBinding,
    pub print_test_info: KeyBinding,
    pub filesystem_item_props: KeyBinding,
    pub sort_by_name_asc: KeyBinding,
    pub sort_by_name_desc: KeyBinding,
    pub sort_by_date_asc: KeyBinding,
    pub sort_by_date_desc: KeyBinding,
    pub sort_by_attr_asc: KeyBinding,
    pub sort_by_attr_desc: KeyBinding,
}

impl KeyboardConfig {
    /// The built-in bindings used until a configuration file overrides
    /// them.
    pub open spec fn spec_default() -> KeyboardConfig {
        KeyboardConfig {
            quit: KeyBinding { key: KeyCode::Char('q'), modifier: MODIFIER_CONTROL },
            focus_left_panel: KeyBinding { key: KeyCode::Char('h'), modifier: MODIFIER_NONE },
            focus_right_panel: KeyBinding { key: KeyCode::Char('l'), modifier: MODIFIER_NONE },
            move_down: KeyBinding { key: KeyCode::Char('j'), modifier: MODIFIER_NONE },
            move_up: KeyBinding { key: KeyCode::Char('k'), modifier: MODIFIER_NONE },
            next_tab: KeyBinding { key: KeyCode::Char('n'), modifier: MODIFIER_NONE },
            prev_tab: KeyBinding { key: KeyCode::Char('p'), modifier: MODIFIER_NONE },
            close: KeyBinding { key: KeyCode::Esc, modifier: MODIFIER_NONE },
            open: KeyBinding { key: KeyCode::Char('o'), modifier: MODIFIER_NONE },
            open_as_tab: KeyBinding { key: KeyCode::Char('o'), modifier: MODIFIER_CONTROL },
            navigate_up: KeyBinding { key: KeyCode::Backspace, modifier: MODIFIER_NONE },
            delete: KeyBinding { key: KeyCode::Char('d'), modifier: MODIFIER_CONTROL },
            move_left: KeyBinding { key: KeyCode::Char('h'), modifier: MODIFIER_CONTROL },
            move_right: KeyBinding { key: KeyCode::Char('l'), modifier: MODIFIER_CONTROL },
            move_fs_item: KeyBinding { key: KeyCode::Char('m'), modifier: MODIFIER_CONTROL },
            rename: KeyBinding { key: KeyCode::Char('r'), modifier: MODIFIER_CONTROL },
            create: KeyBinding { key: KeyCode::Char('c'), modifier: MODIFIER_CONTROL },
            accept: KeyBinding { key: KeyCode::Enter, modifier: MODIFIER_NONE },
            copy_to_left: KeyBinding { key: KeyCode::Char('z'), modifier: MODIFIER_CONTROL },
            copy_to_right: KeyBinding { key: KeyCode::Char('x'), modifier: MODIFIER_CONTROL },
            copy_fs_item: KeyBinding { key: KeyCode::Char('m'), modifier: MODIFIER_NONE },
            search_in_panel: KeyBinding { key: KeyCode::Char('s'), modifier: MODIFIER_CONTROL },
            select_prev: KeyBinding { key: KeyCode::Char('k'), modifier: MODIFIER_CONTROL },
            select_next: KeyBinding { key: KeyCode::Char('j'), modifier: MODIFIER_CONTROL },
            change_focus_panels: KeyBinding { key: KeyCode::Tab, modifier: MODIFIER_NONE },
            command_1: KeyBinding { key: KeyCode::Char('1'), modifier: MODIFIER_NONE },
            command_2: KeyBinding { key: KeyCode::Char('2'), modifier: MODIFIER_NONE },
            command_3: KeyBinding { key: KeyCode::Char('3'), modifier: MODIFIER_NONE },
            command_4: KeyBinding { key: KeyCode::Char('4'), modifier: MODIFIER_NONE },
            command_5: KeyBinding { key: KeyCode::Char('5'), modifier: MODIFIER_NONE },
            command_6: KeyBinding { key: KeyCode::Char('6'), modifier: MODIFIER_NONE },
            command_7: KeyBinding { key: KeyCode::Char('7'), modifier: MODIFIER_NONE },
            command_8: KeyBinding { key: KeyCode::Char('8'), modifier: MODIFIER_NONE },
            command_9: KeyBinding { key: KeyCode::Char('9'), modifier: MODIFIER_NONE },
            print_test_info: KeyBinding { key: KeyCode::Char('t'), modifier: MODIFIER_CONTROL },
            filesystem_item_props: KeyBinding { key: KeyCode::Char('i'), modifier: MODIFIER_NONE },
            sort_by_name_asc: KeyBinding { key: KeyCode::F(1), modifier: MODIFIER_NONE },
            sort_by_name_desc: KeyBinding { key: KeyCode::F(1), modifier: MODIFIER_CONTROL },
            sort_by_date_asc: KeyBinding { key: KeyCode::F(2), modifier: MODIFIER_NONE },
            sort_by_date_desc: KeyBinding { key: KeyCode::F(2), modifier: MODIFIER_CONTROL },
            sort_by_attr_asc: KeyBinding { key: KeyCode::F(3), modifier: MODIFIER_NONE },
            sort_by_attr_desc: KeyBinding { key: KeyCode::F(3), modifier: MODIFIER_CONTROL },
        }
    }
}

impl Default for KeyboardConfig {
    fn default() -> (r: Self)
        ensures
            r == KeyboardConfig::spec_default(),
    {
        KeyboardConfig {
            quit: KeyBinding::with_modifiers(KeyCode::Char('q'), MODIFIER_CONTROL),
            focus_left_panel: KeyBinding::new(KeyCode::Char('h')),
            focus_right_panel: KeyBinding::new(KeyCode::Char('l')),
            move_down: KeyBinding::new(KeyCode::Char('j')),
            move_up: KeyBinding::new(KeyCode::Char('k')),
            next_tab: KeyBinding::new(KeyCode::Char('n')),
            prev_tab: KeyBinding::new(KeyCode::Char('p')),
            close: KeyBinding::new(KeyCode::Esc),
            open: KeyBinding::new(KeyCode::Char('o')),
            open_as_tab: KeyBinding::with_modifiers(KeyCode::Char('o'), MODIFIER_CONTROL),
            navigate_up: KeyBinding::new(KeyCode::Backspace),
            delete: KeyBinding::with_modifiers(KeyCode::Char('d'), MODIFIER_CONTROL),
            move_left: KeyBinding::with_modifiers(KeyCode::Char('h'), MODIFIER_CONTROL),
            move_right: KeyBinding::with_modifiers(KeyCode::Char('l'), MODIFIER_CONTROL),
            move_fs_item: KeyBinding::with_modifiers(KeyCode::Char('m'), MODIFIER_CONTROL),
            rename: KeyBinding::with_modifiers(KeyCode::Char('r'), MODIFIER_CONTROL),
            create: KeyBinding::with_modifiers(KeyCode::Char('c'), MODIFIER_CONTROL),
            accept: KeyBinding::new(KeyCode::Enter),
            copy_to_left: KeyBinding::with_modifiers(KeyCode::Char('z'), MODIFIER_CONTROL),
            copy_to_right: KeyBinding::with_modifiers(KeyCode::Char('x'), MODIFIER_CONTROL),
            copy_fs_item: KeyBinding::new(KeyCode::Char('m')),
            search_in_panel: KeyBinding::with_modifiers(KeyCode::Char('s'), MODIFIER_CONTROL),
            select_prev: KeyBinding::with_modifiers(KeyCode::Char('k'), MODIFIER_CONTROL),
            select_next: KeyBinding::with_modifiers(KeyCode::Char('j'), MODIFIER_CONTROL),
            change_focus_panels: KeyBinding::new(KeyCode::Tab),
            command_1: KeyBinding::new(KeyCode::Char('1')),
            command_2: KeyBinding::new(KeyCode::Char('2')),
            command_3: KeyBinding::new(KeyCode::Char('3')),
            command_4: KeyBinding::new(KeyCode::Char('4')),
            command_5: KeyBinding::new(KeyCode::Char('5')),
            command_6: KeyBinding::new(KeyCode::Char('6')),
            command_7: KeyBinding::new(KeyCode::Char('7')),
            command_8: KeyBinding::new(KeyCode::Char('8')),
            command_9: KeyBinding::new(KeyCode::Char('9')),
            print_test_info: KeyBinding::with_modifiers(KeyCode::Char('t'), MODIFIER_CONTROL),
            filesystem_item_props: KeyBinding::new(KeyCode::Char('i')),
            sort_by_name_asc: KeyBinding::new(KeyCode::F(1)),
            sort_by_name_desc: KeyBinding::with_modifiers(KeyCode::F(1), MODIFIER_CONTROL),
            sort_by_date_asc: KeyBinding::new(KeyCode::F(2)),
            sort_by_date_desc: KeyBinding::with_modifiers(KeyCode::F(2), MODIFIER_CONTROL),
            sort_by_attr_asc: KeyBinding::new(KeyCode::F(3)),
            sort_by_attr_desc: KeyBinding::with_modifiers(KeyCode::F(3), MODIFIER_CONTROL),
        }
    }
}

} // verus!
