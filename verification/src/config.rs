//! Configuration snapshot consumed by the store: the sort policy of the
//! directory listings and the hotkey-to-path bindings for quick jumps.

use vstd::prelude::*;

use crate::keyboard::KeyboardConfig;
use crate::textops::str_eq;

verus! {

/// The built-in tick rate, in milliseconds.
pub const DEFAULT_TICK_RATE: u64 = 240;

/// Direction of one sort axis.
#[derive(Clone, Copy, Debug, PartialEq, Eq, Structural)]
pub enum SortEnum {
    ASC,
    DESC,
    NONE,
}

/// Sort policy of a tab listing: three independent axes plus the
/// "directories first" grouping flag.
#[derive(Clone, Copy, Debug, PartialEq, Eq, Structural)]
pub struct TabConfig {
    pub directory_first: bool,
    pub sort_by_name: SortEnum,
    pub sort_by_date: SortEnum,
    pub sort_by_attr: SortEnum,
}

impl Default for TabConfig {
    fn default() -> (r: Self)
        ensures
            r.directory_first == false,
            r.sort_by_name == SortEnum::NONE,
            r.sort_by_date == SortEnum::NONE,
            r.sort_by_attr == SortEnum::NONE,
    {
        TabConfig {
            directory_first: false,
            sort_by_name: SortEnum::NONE,
            sort_by_date: SortEnum::NONE,
            sort_by_attr: SortEnum::NONE,
        }
    }
}

/// Parses a sort direction name: `"asc"`, `"desc"`, anything else is
/// unordered.
pub fn sort_from_str(s: &str) -> (r: SortEnum)
    ensures
        r == (if s@ == "asc"@ {
            SortEnum::ASC
        } else if s@ == "desc"@ {
            SortEnum::DESC
        } else {
            SortEnum::NONE
        }),
{
    if str_eq(s, "asc") {
        SortEnum::ASC
    } else if str_eq(s, "desc") {
        SortEnum::DESC
    } else {
        SortEnum::NONE
    }
}

/// Hotkey-command bindings: a command name mapped to the path it jumps to.
///
/// Bindings are kept in arrival order; the latest binding of a name wins,
/// so rebinding behaves like an insertion into a map.
#[derive(Clone, Debug)]
pub struct HotkeyCommandsPrograms {
    bindings: Vec<(String, String)>,
}

impl HotkeyCommandsPrograms {
    /// The path bound to `name`, or the empty sequence when `name` is not
    /// bound.
    pub closed spec fn spec_path_of(&self, name: Seq<char>) -> Seq<char> {
        Self::spec_lookup(self.bindings@, name)
    }

    /// Latest-binding-wins lookup.
    pub closed spec fn spec_lookup(bindings: Seq<(String, String)>, name: Seq<char>) -> Seq<char>
        decreases bindings.len(),
    {
        if bindings.len() == 0 {
            Seq::<char>::empty()
        } else if bindings.last().0@ == name {
            bindings.last().1@
        } else {
            Self::spec_lookup(bindings.drop_last(), name)
        }
    }

    /// Binds `name` to `path`, shadowing an earlier binding of the same
    /// name.
    pub fn set_binding(&mut self, name: String, path: String)
        ensures
            final(self).spec_path_of(name@) == path@,
            forall|other: Seq<char>|
                other != name@ ==> final(self).spec_path_of(other) == old(self).spec_path_of(
                    other,
                ),
    {
        let ghost prev = self.bindings@;
        let ghost name_view = name@;
        let ghost path_view = path@;
        self.bindings.push((name, path));
        proof {
            assert(self.bindings@.last().0@ == name_view);
            assert(self.bindings@.drop_last() =~= prev);
        }
    }

    /// The path a command name jumps to; the empty string when the command
    /// is not bound.
    pub fn get_path(&self, command_name: String) -> (r: String)
        ensures
            r@ == self.spec_path_of(command_name@),
    {
        let mut i: usize = self.bindings.len();
        proof {
            assert(self.bindings@.take(i as int) =~= self.bindings@);
        }
        while i > 0
            invariant
                0 <= i <= self.bindings@.len(),
                self.spec_path_of(command_name@) == Self::spec_lookup(
                    self.bindings@.take(i as int),
                    command_name@,
                ),
            decreases i,
        {
            proof {
                assert(self.bindings@.take(i as int).last() == self.bindings@[i - 1]);
                assert(self.bindings@.take(i as int).drop_last() =~= self.bindings@.take(
                    i - 1,
                ));
            }
            if self.bindings[i - 1].0 == command_name {
                return self.bindings[i - 1].1.clone();
            }
            i -= 1;
        }
        proof {
            assert(self.bindings@.take(0) =~= Seq::<(String, String)>::empty());
        }
        String::new()
    }
}

impl Default for HotkeyCommandsPrograms {
    /// No command is bound at start.
    fn default() -> (r: Self)
        ensures
            forall|name: Seq<char>| r.spec_path_of(name) == Seq::<char>::empty(),
    {
        HotkeyCommandsPrograms { bindings: Vec::new() }
    }
}

/// The configuration snapshot the store reads: keyboard bindings, the
/// listing sort policy, the hotkey-command paths and the tick rate.
#[derive(Clone, Debug)]
pub struct Config {
    pub keyboard_cfg: KeyboardConfig,
    pub hotkey_commands_programs: HotkeyCommandsPrograms,
    pub tab_config: TabConfig,
    pub tick_rate: u64,
}

impl Default for Config {
    fn default() -> (r: Self)
        ensures
            r.keyboard_cfg == KeyboardConfig::spec_default(),
            forall|name: Seq<char>|
                r.hotkey_commands_programs.spec_path_of(name) == Seq::<char>::empty(),
            r.tab_config.directory_first == false,
            r.tab_config.sort_by_name == SortEnum::NONE,
            r.tab_config.sort_by_date == SortEnum::NONE,
            r.tab_config.sort_by_attr == SortEnum::NONE,
            r.tick_rate == DEFAULT_TICK_RATE,
    {
        Config {
            keyboard_cfg: KeyboardConfig::default(),
            hotkey_commands_programs: HotkeyCommandsPrograms::default(),
            tab_config: TabConfig::default(),
            tick_rate: DEFAULT_TICK_RATE,
        }
    }
}

} // verus!
