//! Keyboard handling for a tab: translates one key press, against the
//! configured bindings and the current state, into the ordered list of
//! actions to dispatch.  Batch operations plan one action per selected
//! item; a conflict on one item never stops the others.

use vstd::prelude::*;

use crate::actions::{
    AppAction, DirectoryAction, FileAction, FileManagerActions, ModalType, PanelInfo, PanelSide,
    SearchAction, SymlinkAction, TabAction,
};
use crate::file_system::{format_timestamp, FileSystemItem};
use crate::keyboard::{KeyBinding, KeyCode, KeyEvent, KeyboardConfig};
use crate::paths::{join_path, parent_of, spec_join, spec_parent};
use crate::state::AppState;
use crate::store::{build_conflict_message, spec_conflict_message};
use crate::textops::{pop_char, push_char, spec_decimal, u64_to_string};

verus! {

/// Whether the event presses the binding.
pub open spec fn spec_pressed(b: KeyBinding, key: KeyEvent) -> bool {
    key.code == b.key && key.modifiers == b.modifier
}

/// Whether a selected item takes part in a cross-panel move or copy:
/// directories and files do, symlinks and unknown entries are skipped.
pub open spec fn spec_item_transfers(item: FileSystemItem) -> bool {
    item is Directory || item is File
}

/// The action a cross-panel move plans for one selected item: a
/// message box for a directory already at the destination path, a
/// move to destination-path plus base name otherwise.
pub open spec fn spec_move_action_for(
    item: FileSystemItem,
    from_side: PanelSide,
    from_tab: int,
    to_side: PanelSide,
    to_tab: int,
    to_tab_path: Seq<char>,
    a: FileManagerActions,
) -> bool {
    match item {
        FileSystemItem::Directory(d) => {
            if d.path@ == to_tab_path {
                match a {
                    FileManagerActions::App(
                        AppAction::ShowModal(ModalType::MessageboxModal(m)),
                    ) => m@ == spec_conflict_message(d.path@, to_tab_path),
                    _ => false,
                }
            } else {
                match a {
                    FileManagerActions::Directory(DirectoryAction::Move { from, to }) => {
                        &&& from.path@ == d.path@
                        &&& from.tab == from_tab
                        &&& from.side == from_side
                        &&& to.path@ == spec_join(to_tab_path, d.name@)
                        &&& to.tab == to_tab
                        &&& to.side == to_side
                    },
                    _ => false,
                }
            }
        },
        FileSystemItem::File(f) => match a {
            FileManagerActions::File(FileAction::Move { from, to }) => {
                &&& from.path@ == f.path@
                &&& from.tab == from_tab
                &&& from.side == from_side
                &&& to.path@ == spec_join(to_tab_path, f.name@)
                &&& to.tab == to_tab
                &&& to.side == to_side
            },
            _ => false,
        },
        _ => false,
    }
}

/// The action a cross-panel copy plans for one selected item: as for a
/// move, a directory already at the destination path raises a message
/// box instead of any copy.
pub open spec fn spec_copy_action_for(
    item: FileSystemItem,
    from_side: PanelSide,
    from_tab: int,
    to_side: PanelSide,
    to_tab: int,
    to_tab_path: Seq<char>,
    a: FileManagerActions,
) -> bool {
    match item {
        FileSystemItem::Directory(d) => {
            if d.path@ == to_tab_path {
                match a {
                    FileManagerActions::App(
                        AppAction::ShowModal(ModalType::MessageboxModal(m)),
                    ) => m@ == spec_conflict_message(d.path@, to_tab_path),
                    _ => false,
                }
            } else {
                match a {
                    FileManagerActions::Directory(DirectoryAction::Copy { from, to }) => {
                        &&& from.path@ == d.path@
                        &&& from.tab == from_tab
                        &&& from.side == from_side
                        &&& to.path@ == spec_join(to_tab_path, d.name@)
                        &&& to.tab == to_tab
                        &&& to.side == to_side
                    },
                    _ => false,
                }
            }
        },
        FileSystemItem::File(f) => match a {
            FileManagerActions::File(FileAction::Copy { from, to }) => {
                &&& from.path@ == f.path@
                &&& from.tab == from_tab
                &&& from.side == from_side
                &&& to.path@ == spec_join(to_tab_path, f.name@)
                &&& to.tab == to_tab
                &&& to.side == to_side
            },
            _ => false,
        },
        _ => false,
    }
}

/// Whether a selected item takes part in a batch delete.
pub open spec fn spec_item_deletes(item: FileSystemItem) -> bool {
    !(item is Unknown)
}

/// The action a batch delete plans for one selected item; a directory
/// carries the emptiness flag cached at listing time.
pub open spec fn spec_delete_action_for(
    item: FileSystemItem,
    side: PanelSide,
    tab: int,
    a: FileManagerActions,
) -> bool {
    match item {
        FileSystemItem::Directory(d) => match a {
            FileManagerActions::Directory(DirectoryAction::Delete { panel, is_empty }) => {
                &&& panel.path@ == d.path@
                &&& panel.tab == tab
                &&& panel.side == side
                &&& is_empty == d.empty
            },
            _ => false,
        },
        FileSystemItem::File(f) => match a {
            FileManagerActions::File(FileAction::Delete { panel }) => {
                panel.path@ == f.path@ && panel.tab == tab && panel.side == side
            },
            _ => false,
        },
        FileSystemItem::Symlink(s) => match a {
            FileManagerActions::Symlink(SymlinkAction::Delete { panel }) => {
                panel.path@ == s.path@ && panel.tab == tab && panel.side == side
            },
            _ => false,
        },
        FileSystemItem::Unknown => false,
    }
}

/// Whether a selected item takes part in a batch open.
pub open spec fn spec_item_opens(item: FileSystemItem) -> bool {
    !(item is Unknown)
}

/// The action a batch open plans for one selected item.
pub open spec fn spec_open_action_for(
    item: FileSystemItem,
    side: PanelSide,
    tab: int,
    a: FileManagerActions,
) -> bool {
    match item {
        FileSystemItem::Directory(d) => match a {
            FileManagerActions::Directory(DirectoryAction::Open { panel, in_new_tab }) => {
                &&& panel.path@ == d.path@
                &&& panel.tab == tab
                &&& panel.side == side
                &&& in_new_tab == false
            },
            _ => false,
        },
        FileSystemItem::File(f) => match a {
            FileManagerActions::File(FileAction::Open { panel }) => {
                panel.path@ == f.path@ && panel.tab == tab && panel.side == side
            },
            _ => false,
        },
        FileSystemItem::Symlink(s) => match a {
            FileManagerActions::Symlink(SymlinkAction::Open { panel, in_new_tab }) => {
                &&& panel.path@ == s.path@
                &&& panel.tab == tab
                &&& panel.side == side
                &&& in_new_tab == false
            },
            _ => false,
        },
        FileSystemItem::Unknown => false,
    }
}

/// Whether a selected item opens as a new tab: directories and
/// symlinks do.
pub open spec fn spec_item_opens_as_tab(item: FileSystemItem) -> bool {
    item is Directory || item is Symlink
}

/// The action a batch open-as-tab plans for one selected item.
pub open spec fn spec_open_as_tab_action_for(
    item: FileSystemItem,
    side: PanelSide,
    tab: int,
    a: FileManagerActions,
) -> bool {
    match item {
        FileSystemItem::Directory(d) => match a {
            FileManagerActions::Directory(DirectoryAction::Open { panel, in_new_tab }) => {
                &&& panel.path@ == d.path@
                &&& panel.tab == tab
                &&& panel.side == side
                &&& in_new_tab == true
            },
            _ => false,
        },
        FileSystemItem::Symlink(s) => match a {
            FileManagerActions::Symlink(SymlinkAction::Open { panel, in_new_tab }) => {
                &&& panel.path@ == s.path@
                &&& panel.tab == tab
                &&& panel.side == side
                &&& in_new_tab == true
            },
            _ => false,
        },
        _ => false,
    }
}

/// A batch plan: one planned action per participating selected item,
/// in selection order.  The first parameter of `action_for` style
/// predicates is folded in by the callers below.
pub open spec fn spec_move_plan(
    selected: Seq<FileSystemItem>,
    from_side: PanelSide,
    from_tab: int,
    to_side: PanelSide,
    to_tab: int,
    to_tab_path: Seq<char>,
    r: Seq<FileManagerActions>,
) -> bool
    decreases selected.len(),
{
    if selected.len() == 0 {
        r.len() == 0
    } else if !spec_item_transfers(selected.last()) {
        spec_move_plan(selected.drop_last(), from_side, from_tab, to_side, to_tab, to_tab_path, r)
    } else {
        &&& r.len() >= 1
        &&& spec_move_plan(
            selected.drop_last(),
            from_side,
            from_tab,
            to_side,
            to_tab,
            to_tab_path,
            r.drop_last(),
        )
        &&& spec_move_action_for(
            selected.last(),
            from_side,
            from_tab,
            to_side,
            to_tab,
            to_tab_path,
            r.last(),
        )
    }
}

/// As `spec_move_plan`, for copies.
pub open spec fn spec_copy_plan(
    selected: Seq<FileSystemItem>,
    from_side: PanelSide,
    from_tab: int,
    to_side: PanelSide,
    to_tab: int,
    to_tab_path: Seq<char>,
    r: Seq<FileManagerActions>,
) -> bool
    decreases selected.len(),
{
    if selected.len() == 0 {
        r.len() == 0
    } else if !spec_item_transfers(selected.last()) {
        spec_copy_plan(selected.drop_last(), from_side, from_tab, to_side, to_tab, to_tab_path, r)
    } else {
        &&& r.len() >= 1
        &&& spec_copy_plan(
            selected.drop_last(),
            from_side,
            from_tab,
            to_side,
            to_tab,
            to_tab_path,
            r.drop_last(),
        )
        &&& spec_copy_action_for(
            selected.last(),
            from_side,
            from_tab,
            to_side,
            to_tab,
            to_tab_path,
            r.last(),
        )
    }
}

/// As `spec_move_plan`, for deletes.
pub open spec fn spec_delete_plan(
    selected: Seq<FileSystemItem>,
    side: PanelSide,
    tab: int,
    r: Seq<FileManagerActions>,
) -> bool
    decreases selected.len(),
{
    if selected.len() == 0 {
        r.len() == 0
    } else if !spec_item_deletes(selected.last()) {
        spec_delete_plan(selected.drop_last(), side, tab, r)
    } else {
        &&& r.len() >= 1
        &&& spec_delete_plan(selected.drop_last(), side, tab, r.drop_last())
        &&& spec_delete_action_for(selected.last(), side, tab, r.last())
    }
}

/// As `spec_move_plan`, for opens.
pub open spec fn spec_open_plan(
    selected: Seq<FileSystemItem>,
    side: PanelSide,
    tab: int,
    r: Seq<FileManagerActions>,
) -> bool
    decreases selected.len(),
{
    if selected.len() == 0 {
        r.len() == 0
    } else if !spec_item_opens(selected.last()) {
        spec_open_plan(selected.drop_last(), side, tab, r)
    } else {
        &&& r.len() >= 1
        &&& spec_open_plan(selected.drop_last(), side, tab, r.drop_last())
        &&& spec_open_action_for(selected.last(), side, tab, r.last())
    }
}

/// As `spec_move_plan`, for opens into new tabs.
pub open spec fn spec_open_as_tab_plan(
    selected: Seq<FileSystemItem>,
    side: PanelSide,
    tab: int,
    r: Seq<FileManagerActions>,
) -> bool
    decreases selected.len(),
{
    if selected.len() == 0 {
        r.len() == 0
    } else if !spec_item_opens_as_tab(selected.last()) {
        spec_open_as_tab_plan(selected.drop_last(), side, tab, r)
    } else {
        &&& r.len() >= 1
        &&& spec_open_as_tab_plan(selected.drop_last(), side, tab, r.drop_last())
        &&& spec_open_as_tab_action_for(selected.last(), side, tab, r.last())
    }
}

/// Plans a cross-panel move of every selected item, in selection
/// order.
pub fn plan_batch_move(
    selected: &Vec<FileSystemItem>,
    from_side: PanelSide,
    from_tab: usize,
    to_side: PanelSide,
    to_tab: usize,
    to_tab_path: &String,
) -> (r: Vec<FileManagerActions>)
    ensures
        spec_move_plan(
            selected@,
            from_side,
            from_tab as int,
            to_side,
            to_tab as int,
            to_tab_path@,
            r@,
        ),
{
    let len = selected.len();
    let mut r: Vec<FileManagerActions> = Vec::new();
    let mut i: usize = 0;
    while i < len
        invariant
            0 <= i <= len,
            len == selected@.len(),
            spec_move_plan(
                selected@.take(i as int),
                from_side,
                from_tab as int,
                to_side,
                to_tab as int,
                to_tab_path@,
                r@,
            ),
        decreases len - i,
    {
        proof {
            assert(selected@.take(i as int + 1).drop_last() =~= selected@.take(i as int));
            assert(selected@.take(i as int + 1).last() == selected@[i as int]);
        }
        let ghost prev_r = r@;
        match &selected[i] {
            FileSystemItem::Directory(dir) => {
                let dpath = dir.get_path();
                if dpath == *to_tab_path {
                    let message = build_conflict_message(&dpath, to_tab_path);
                    r.push(
                        FileManagerActions::App(
                            AppAction::ShowModal(ModalType::MessageboxModal(message)),
                        ),
                    );
                } else {
                    let name = dir.get_name();
                    let to_path = join_path(to_tab_path, &name);
                    r.push(
                        FileManagerActions::Directory(
                            DirectoryAction::Move {
                                from: PanelInfo { path: dpath, tab: from_tab, side: from_side },
                                to: PanelInfo { path: to_path, tab: to_tab, side: to_side },
                            },
                        ),
                    );
                }
            },
            FileSystemItem::File(file) => {
                let name = file.get_name();
                let to_path = join_path(to_tab_path, &name);
                r.push(
                    FileManagerActions::File(
                        FileAction::Move {
                            from: PanelInfo {
                                path: file.get_path(),
                                tab: from_tab,
                                side: from_side,
                            },
                            to: PanelInfo { path: to_path, tab: to_tab, side: to_side },
                        },
                    ),
                );
            },
            _ => {},
        }
        proof {
            if r@.len() != prev_r.len() {
                assert(r@.drop_last() =~= prev_r);
            }
        }
        i += 1;
    }
    proof {
        assert(selected@.take(len as int) =~= selected@);
    }
    r
}

/// Plans a cross-panel copy of every selected item, in selection
/// order; a directory already at the destination path raises the
/// conflict message box instead of a copy.
pub fn plan_batch_copy(
    selected: &Vec<FileSystemItem>,
    from_side: PanelSide,
    from_tab: usize,
    to_side: PanelSide,
    to_tab: usize,
    to_tab_path: &String,
) -> (r: Vec<FileManagerActions>)
    ensures
        spec_copy_plan(
            selected@,
            from_side,
            from_tab as int,
            to_side,
            to_tab as int,
            to_tab_path@,
            r@,
        ),
{
    let len = selected.len();
    let mut r: Vec<FileManagerActions> = Vec::new();
    let mut i: usize = 0;
    while i < len
        invariant
            0 <= i <= len,
            len == selected@.len(),
            spec_copy_plan(
                selected@.take(i as int),
                from_side,
                from_tab as int,
                to_side,
                to_tab as int,
                to_tab_path@,
                r@,
            ),
        decreases len - i,
    {
        proof {
            assert(selected@.take(i as int + 1).drop_last() =~= selected@.take(i as int));
            assert(selected@.take(i as int + 1).last() == selected@[i as int]);
        }
        let ghost prev_r = r@;
        match &selected[i] {
            FileSystemItem::Directory(dir) => {
                let dpath = dir.get_path();
                if dpath == *to_tab_path {
                    let message = build_conflict_message(&dpath, to_tab_path);
                    r.push(
                        FileManagerActions::App(
                            AppAction::ShowModal(ModalType::MessageboxModal(message)),
                        ),
                    );
                } else {
                    let name = dir.get_name();
                    let to_path = join_path(to_tab_path, &name);
                    r.push(
                        FileManagerActions::Directory(
                            DirectoryAction::Copy {
                                from: PanelInfo { path: dpath, tab: from_tab, side: from_side },
                                to: PanelInfo { path: to_path, tab: to_tab, side: to_side },
                            },
                        ),
                    );
                }
            },
            FileSystemItem::File(file) => {
                let name = file.get_name();
                let to_path = join_path(to_tab_path, &name);
                r.push(
                    FileManagerActions::File(
                        FileAction::Copy {
                            from: PanelInfo {
                                path: file.get_path(),
                                tab: from_tab,
                                side: from_side,
                            },
                            to: PanelInfo { path: to_path, tab: to_tab, side: to_side },
                        },
                    ),
                );
            },
            _ => {},
        }
        proof {
            if r@.len() != prev_r.len() {
                assert(r@.drop_last() =~= prev_r);
            }
        }
        i += 1;
    }
    proof {
        assert(selected@.take(len as int) =~= selected@);
    }
    r
}

/// Plans the deletion of every selected item, in selection order.
pub fn plan_batch_delete(
    selected: &Vec<FileSystemItem>,
    side: PanelSide,
    tab: usize,
) -> (r: Vec<FileManagerActions>)
    ensures
        spec_delete_plan(selected@, side, tab as int, r@),
{
    let len = selected.len();
    let mut r: Vec<FileManagerActions> = Vec::new();
    let mut i: usize = 0;
    while i < len
        invariant
            0 <= i <= len,
            len == selected@.len(),
            spec_delete_plan(selected@.take(i as int), side, tab as int, r@),
        decreases len - i,
    {
        proof {
            assert(selected@.take(i as int + 1).drop_last() =~= selected@.take(i as int));
            assert(selected@.take(i as int + 1).last() == selected@[i as int]);
        }
        let ghost prev_r = r@;
        match &selected[i] {
            FileSystemItem::Directory(dir) => {
                r.push(
                    FileManagerActions::Directory(
                        DirectoryAction::Delete {
                            panel: PanelInfo { path: dir.get_path(), tab, side },
                            is_empty: dir.is_empty(),
                        },
                    ),
                );
            },
            FileSystemItem::File(file) => {
                r.push(
                    FileManagerActions::File(
                        FileAction::Delete {
                            panel: PanelInfo { path: file.get_path(), tab, side },
                        },
                    ),
                );
            },
            FileSystemItem::Symlink(symlink) => {
                r.push(
                    FileManagerActions::Symlink(
                        SymlinkAction::Delete {
                            panel: PanelInfo { path: symlink.get_path(), tab, side },
                        },
                    ),
                );
            },
            FileSystemItem::Unknown => {},
        }
        proof {
            if r@.len() != prev_r.len() {
                assert(r@.drop_last() =~= prev_r);
            }
        }
        i += 1;
    }
    proof {
        assert(selected@.take(len as int) =~= selected@);
    }
    r
}

/// Plans opening every selected item in place, in selection order.
pub fn plan_batch_open(
    selected: &Vec<FileSystemItem>,
    side: PanelSide,
    tab: usize,
) -> (r: Vec<FileManagerActions>)
    ensures
        spec_open_plan(selected@, side, tab as int, r@),
{
    let len = selected.len();
    let mut r: Vec<FileManagerActions> = Vec::new();
    let mut i: usize = 0;
    while i < len
        invariant
            0 <= i <= len,
            len == selected@.len(),
            spec_open_plan(selected@.take(i as int), side, tab as int, r@),
        decreases len - i,
    {
        proof {
            assert(selected@.take(i as int + 1).drop_last() =~= selected@.take(i as int));
            assert(selected@.take(i as int + 1).last() == selected@[i as int]);
        }
        let ghost prev_r = r@;
        match &selected[i] {
            FileSystemItem::Directory(dir) => {
                r.push(
                    FileManagerActions::Directory(
                        DirectoryAction::Open {
                            panel: PanelInfo { path: dir.get_path(), tab, side },
                            in_new_tab: false,
                        },
                    ),
                );
            },
            FileSystemItem::File(file) => {
                r.push(
                    FileManagerActions::File(
                        FileAction::Open {
                            panel: PanelInfo { path: file.get_path(), tab, side },
                        },
                    ),
                );
            },
            FileSystemItem::Symlink(symlink) => {
                r.push(
                    FileManagerActions::Symlink(
                        SymlinkAction::Open {
                            panel: PanelInfo { path: symlink.get_path(), tab, side },
                            in_new_tab: false,
                        },
                    ),
                );
            },
            FileSystemItem::Unknown => {},
        }
        proof {
            if r@.len() != prev_r.len() {
                assert(r@.drop_last() =~= prev_r);
            }
        }
        i += 1;
    }
    proof {
        assert(selected@.take(len as int) =~= selected@);
    }
    r
}

/// Plans opening every selected directory or symlink as a new tab, in
/// selection order.
pub fn plan_batch_open_as_tab(
    selected: &Vec<FileSystemItem>,
    side: PanelSide,
    tab: usize,
) -> (r: Vec<FileManagerActions>)
    ensures
        spec_open_as_tab_plan(selected@, side, tab as int, r@),
{
    let len = selected.len();
    let mut r: Vec<FileManagerActions> = Vec::new();
    let mut i: usize = 0;
    while i < len
        invariant
            0 <= i <= len,
            len == selected@.len(),
            spec_open_as_tab_plan(selected@.take(i as int), side, tab as int, r@),
        decreases len - i,
    {
        proof {
            assert(selected@.take(i as int + 1).drop_last() =~= selected@.take(i as int));
            assert(selected@.take(i as int + 1).last() == selected@[i as int]);
        }
        let ghost prev_r = r@;
        match &selected[i] {
            FileSystemItem::Directory(dir) => {
                r.push(
                    FileManagerActions::Directory(
                        DirectoryAction::Open {
                            panel: PanelInfo { path: dir.get_path(), tab, side },
                            in_new_tab: true,
                        },
                    ),
                );
            },
            FileSystemItem::Symlink(symlink) => {
                r.push(
                    FileManagerActions::Symlink(
                        SymlinkAction::Open {
                            panel: PanelInfo { path: symlink.get_path(), tab, side },
                            in_new_tab: true,
                        },
                    ),
                );
            },
            _ => {},
        }
        proof {
            if r@.len() != prev_r.len() {
                assert(r@.drop_last() =~= prev_r);
            }
        }
        i += 1;
    }
    proof {
        assert(selected@.take(len as int) =~= selected@);
    }
    r
}

/// A batch move over files alone plans exactly one move per file, in
/// selection order, each to the destination path extended by the
/// file's base name.
pub proof fn lemma_move_plan_all_files(
    selected: Seq<FileSystemItem>,
    from_side: PanelSide,
    from_tab: int,
    to_side: PanelSide,
    to_tab: int,
    to_tab_path: Seq<char>,
    r: Seq<FileManagerActions>,
)
    requires
        spec_move_plan(selected, from_side, from_tab, to_side, to_tab, to_tab_path, r),
        forall|i: int| 0 <= i < selected.len() ==> #[trigger] selected[i].spec_is_file(),
    ensures
        r.len() == selected.len(),
        forall|i: int|
            0 <= i < selected.len() ==> spec_move_action_for(
                selected[i],
                from_side,
                from_tab,
                to_side,
                to_tab,
                to_tab_path,
                #[trigger] r[i],
            ),
    decreases selected.len(),
{
    if selected.len() > 0 {
        assert(selected[selected.len() - 1].spec_is_file());
        lemma_move_plan_all_files(
            selected.drop_last(),
            from_side,
            from_tab,
            to_side,
            to_tab,
            to_tab_path,
            r.drop_last(),
        );
        assert forall|i: int| 0 <= i < selected.len() implies spec_move_action_for(
            selected[i],
            from_side,
            from_tab,
            to_side,
            to_tab,
            to_tab_path,
            #[trigger] r[i],
        ) by {
            if i < selected.len() - 1 {
                assert(selected.drop_last()[i] == selected[i]);
                assert(r.drop_last()[i] == r[i]);
            }
        }
    }
}

/// The messagebox overlay consumes only the close key, which dismisses
/// it.
pub fn messagebox_handle_key(cfg: &KeyboardConfig, key: KeyEvent) -> (r: Option<
    FileManagerActions,
>)
    ensures
        spec_pressed(cfg.close, key) ==> r == Some(
            FileManagerActions::App(AppAction::CloseModal),
        ),
        !spec_pressed(cfg.close, key) ==> r is None,
{
    if cfg.close.is_pressed(key) {
        Some(FileManagerActions::App(AppAction::CloseModal))
    } else {
        None
    }
}


/// The phrase after one editing key: a character appends, backspace
/// removes the last character, anything else leaves it alone.
pub open spec fn spec_edited_phrase(phrase: Seq<char>, code: KeyCode) -> Seq<char> {
    match code {
        KeyCode::Char(c) => phrase.push(c),
        KeyCode::Backspace => if phrase.len() == 0 {
            phrase
        } else {
            phrase.drop_last()
        },
        _ => phrase,
    }
}

/// Whether `a` opens the directory `path` in the given tab.
pub open spec fn spec_is_open_dir(
    a: FileManagerActions,
    path: Seq<char>,
    tab: int,
    side: PanelSide,
    in_new_tab: bool,
) -> bool {
    match a {
        FileManagerActions::Directory(DirectoryAction::Open { panel, in_new_tab: nt }) => {
            panel.path@ == path && panel.tab == tab && panel.side == side && nt == in_new_tab
        },
        _ => false,
    }
}

/// The plan of a quick-jump command: open the bound path, or nothing
/// when the command is unbound.
pub open spec fn spec_command_plan(
    path: Seq<char>,
    side: PanelSide,
    tab: int,
    r: Seq<FileManagerActions>,
) -> bool {
    if path.len() > 0 {
        r.len() == 1 && spec_is_open_dir(r[0], path, tab, side, false)
    } else {
        r.len() == 0
    }
}

/// The side the cross-panel operations of `side` target.
pub open spec fn spec_other_side(side: PanelSide) -> PanelSide {
    match side {
        PanelSide::Left => PanelSide::Right,
        PanelSide::Right => PanelSide::Left,
    }
}

/// What one key press on a focused tab plans.  The gates are ordered:
/// search control first, then cursor and tab navigation, then quick
/// jumps, then the batch operations, then the overlays.
pub open spec fn spec_tab_key_plan(
    s: AppState,
    side: PanelSide,
    is_focused: bool,
    key: KeyEvent,
    r: Seq<FileManagerActions>,
    handled: bool,
) -> bool {
    let cfg = s.config.keyboard_cfg;
    let p = s.spec_panel(side);
    let ti = p.current_tab as int;
    let t = p.tabs@[ti];
    let oside = spec_other_side(side);
    let op = s.spec_panel(oside);
    let oti = op.current_tab as int;
    let opath = op.tabs@[oti].path@;
    if !is_focused {
        r.len() == 0 && !handled
    } else if spec_pressed(cfg.close, key) && (t.search_mode || t.phrase@.len() > 0) {
        handled && r == seq![
            FileManagerActions::Search(
                SearchAction::Stop { tab: p.current_tab, panel_side: side },
            ),
        ]
    } else if spec_pressed(cfg.accept, key) && t.search_mode && t.phrase@.len() > 0 {
        handled && r == seq![
            FileManagerActions::Search(
                SearchAction::ApplySearch { tab: p.current_tab, panel_side: side },
            ),
        ]
    } else if t.search_mode {
        &&& handled
        &&& r.len() == 1
        &&& match r[0] {
            FileManagerActions::Search(SearchAction::Input { tab, panel_side, phrase }) => {
                &&& tab == p.current_tab
                &&& panel_side == side
                &&& phrase@ == spec_edited_phrase(t.phrase@, key.code)
            },
            _ => false,
        }
    } else if spec_pressed(cfg.search_in_panel, key) {
        handled && r == seq![
            FileManagerActions::Search(
                SearchAction::Start { tab: p.current_tab, panel_side: side },
            ),
        ]
    } else if spec_pressed(cfg.move_down, key) {
        handled && r == seq![FileManagerActions::Tab(TabAction::Next)]
    } else if spec_pressed(cfg.move_up, key) {
        handled && r == seq![FileManagerActions::Tab(TabAction::Previous)]
    } else if spec_pressed(cfg.select_next, key) {
        handled && r == seq![FileManagerActions::Tab(TabAction::SelectNext)]
    } else if spec_pressed(cfg.select_prev, key) {
        handled && r == seq![FileManagerActions::Tab(TabAction::SelectPrev)]
    } else if spec_pressed(cfg.close, key) && t.selected@.len() > 0 {
        handled && r == seq![FileManagerActions::Tab(TabAction::ClearSelection)]
    } else if spec_pressed(cfg.navigate_up, key) {
        handled && match spec_parent(t.path@) {
            Some(parent) => r.len() == 1 && spec_is_open_dir(r[0], parent, ti, side, false),
            None => r.len() == 0,
        }
    } else if spec_pressed(cfg.command_1, key) {
        handled && spec_command_plan(
            s.config.hotkey_commands_programs.spec_path_of("command_1"@),
            side,
            ti,
            r,
        )
    } else if spec_pressed(cfg.command_2, key) {
        handled && spec_command_plan(
            s.config.hotkey_commands_programs.spec_path_of("command_2"@),
            side,
            ti,
            r,
        )
    } else if spec_pressed(cfg.command_3, key) {
        handled && spec_command_plan(
            s.config.hotkey_commands_programs.spec_path_of("command_3"@),
            side,
            ti,
            r,
        )
    } else if spec_pressed(cfg.command_4, key) {
        handled && spec_command_plan(
            s.config.hotkey_commands_programs.spec_path_of("command_4"@),
            side,
            ti,
            r,
        )
    } else if spec_pressed(cfg.command_5, key) {
        handled && spec_command_plan(
            s.config.hotkey_commands_programs.spec_path_of("command_5"@),
            side,
            ti,
            r,
        )
    } else if spec_pressed(cfg.command_6, key) {
        handled && spec_command_plan(
            s.config.hotkey_commands_programs.spec_path_of("command_6"@),
            side,
            ti,
            r,
        )
    } else if spec_pressed(cfg.command_7, key) {
        handled && spec_command_plan(
            s.config.hotkey_commands_programs.spec_path_of("command_7"@),
            side,
            ti,
            r,
        )
    } else if spec_pressed(cfg.command_8, key) {
        handled && spec_command_plan(
            s.config.hotkey_commands_programs.spec_path_of("command_8"@),
            side,
            ti,
            r,
        )
    } else if spec_pressed(cfg.command_9, key) {
        handled && spec_command_plan(
            s.config.hotkey_commands_programs.spec_path_of("command_9"@),
            side,
            ti,
            r,
        )
    } else if spec_pressed(cfg.open_as_tab, key) {
        handled && spec_open_as_tab_plan(t.selected@, side, ti, r)
    } else if spec_pressed(cfg.open, key) {
        handled && spec_open_plan(t.selected@, side, ti, r)
    } else if spec_pressed(cfg.delete, key) {
        &&& handled
        &&& r.len() >= 1
        &&& r.last() == FileManagerActions::Tab(TabAction::SelectNext)
        &&& spec_delete_plan(t.selected@, side, ti, r.drop_last())
    } else if spec_pressed(cfg.move_left, key) && side == PanelSide::Right {
        &&& handled
        &&& r.len() >= 1
        &&& r.last() == FileManagerActions::Tab(TabAction::SelectNext)
        &&& spec_move_plan(t.selected@, side, ti, oside, oti, opath, r.drop_last())
    } else if spec_pressed(cfg.move_right, key) && side == PanelSide::Left {
        &&& handled
        &&& r.len() >= 1
        &&& r.last() == FileManagerActions::Tab(TabAction::SelectNext)
        &&& spec_move_plan(t.selected@, side, ti, oside, oti, opath, r.drop_last())
    } else if spec_pressed(cfg.move_fs_item, key) {
        &&& handled
        &&& r.len() >= 1
        &&& r.last() == FileManagerActions::Tab(TabAction::Next)
        &&& spec_move_plan(t.selected@, side, ti, oside, oti, opath, r.drop_last())
    } else if spec_pressed(cfg.copy_to_left, key) && side == PanelSide::Right {
        &&& handled
        &&& r.len() >= 1
        &&& r.last() == FileManagerActions::Tab(TabAction::Next)
        &&& spec_copy_plan(t.selected@, side, ti, oside, oti, opath, r.drop_last())
    } else if spec_pressed(cfg.copy_to_right, key) && side == PanelSide::Left {
        &&& handled
        &&& r.len() >= 1
        &&& r.last() == FileManagerActions::Tab(TabAction::Next)
        &&& spec_copy_plan(t.selected@, side, ti, oside, oti, opath, r.drop_last())
    } else if spec_pressed(cfg.copy_fs_item, key) {
        &&& handled
        &&& r.len() >= 1
        &&& r.last() == FileManagerActions::Tab(TabAction::Next)
        &&& spec_copy_plan(t.selected@, side, ti, oside, oti, opath, r.drop_last())
    } else if spec_pressed(cfg.print_test_info, key) {
        handled && r.len() == 0
    } else if spec_pressed(cfg.filesystem_item_props, key) {
        &&& handled
        &&& r.len() == t.selected@.len()
        &&& forall|i: int|
            0 <= i < r.len() ==> spec_props_action_for(t.selected@[i], #[trigger] r[i])
    } else if (t.selected@.len() == 1 || t.cursor is None) && spec_pressed(cfg.rename, key)
        && t.cursor is Some {
        &&& handled
        &&& r.len() == 1
        &&& match r[0] {
            FileManagerActions::App(
                AppAction::ShowModal(ModalType::RenameModal { panel_side, panel_tab, item }),
            ) => {
                &&& panel_side == side
                &&& panel_tab == p.current_tab
                &&& item == t.spec_filtered()[t.cursor.unwrap() as int]
            },
            _ => false,
        }
    } else if (t.selected@.len() == 1 || t.cursor is None) && spec_pressed(cfg.create, key) {
        &&& handled
        &&& r.len() == 1
        &&& match r[0] {
            FileManagerActions::App(
                AppAction::ShowModal(
                    ModalType::CreateModal { item_index, panel_side, panel_tab, panel_tab_path },
                ),
            ) => {
                &&& item_index == t.cursor
                &&& panel_side == side
                &&& panel_tab == p.current_tab
                &&& panel_tab_path@ == t.path@
            },
            _ => false,
        }
    } else {
        !handled && r.len() == 0
    }
}


/// The properties summary of one item.  The three timestamp renderings
/// depend on the machine's time zone and are taken as given; every
/// other line is a function of the item.
pub open spec fn spec_props_message(
    item: FileSystemItem,
    created: Seq<char>,
    modified: Seq<char>,
    accessed: Seq<char>,
) -> Seq<char> {
    "Created: "@ + created + "\nModified: "@ + modified + "\nAccessed: "@ + accessed
        + "\nSize: "@ + spec_decimal(item.spec_size() as nat) + " bytes\n Mode: "@
        + spec_decimal(item.spec_mode() as nat) + "\nInode: "@ + spec_decimal(
        item.spec_inode() as nat,
    ) + "\nNumber on links: "@ + spec_decimal(item.spec_nlink() as nat) + "\n(Owner:Group): "@
        + item.spec_username() + ":"@ + item.spec_groupname() + "\nBlocks: "@ + spec_decimal(
        item.spec_blocksize() as nat,
    ) + "\nNumber of block: "@ + spec_decimal(item.spec_blocks() as nat)
}

/// The action the properties overlay plans for one selected item: a
/// message box whose text is the item's summary under some rendering
/// of its three timestamps.
pub open spec fn spec_props_action_for(item: FileSystemItem, a: FileManagerActions) -> bool {
    match a {
        FileManagerActions::App(AppAction::ShowModal(ModalType::MessageboxModal(m))) => {
            exists|created: Seq<char>, modified: Seq<char>, accessed: Seq<char>|
                m@ == #[trigger] spec_props_message(item, created, modified, accessed)
        },
        _ => false,
    }
}

/// The metadata summary shown by the item-properties overlay.
fn props_message(item: &FileSystemItem) -> (r: String)
    ensures
        exists|created: Seq<char>, modified: Seq<char>, accessed: Seq<char>|
            r@ == #[trigger] spec_props_message(*item, created, modified, accessed),
{
    let created_text = format_timestamp(item.get_created());
    let modified_text = format_timestamp(item.get_modified());
    let accessed_text = format_timestamp(item.get_accessed());
    let mut m = String::from_str("Created: ");
    m.append(created_text.as_str());
    m.append("\nModified: ");
    m.append(modified_text.as_str());
    m.append("\nAccessed: ");
    m.append(accessed_text.as_str());
    m.append("\nSize: ");
    m.append(u64_to_string(item.get_size()).as_str());
    m.append(" bytes\n Mode: ");
    m.append(u64_to_string(item.get_mode() as u64).as_str());
    m.append("\nInode: ");
    m.append(u64_to_string(item.get_inode()).as_str());
    m.append("\nNumber on links: ");
    m.append(u64_to_string(item.get_nlink()).as_str());
    m.append("\n(Owner:Group): ");
    m.append(item.get_username().as_str());
    m.append(":");
    m.append(item.get_groupname().as_str());
    m.append("\nBlocks: ");
    m.append(u64_to_string(item.get_blocksize()).as_str());
    m.append("\nNumber of block: ");
    m.append(u64_to_string(item.get_blocks()).as_str());
    proof {
        assert(m@ =~= spec_props_message(*item, created_text@, modified_text@, accessed_text@));
    }
    m
}

/// Plans the item-properties overlays: one message box per selected
/// item, carrying that item's summary.
fn plan_props(selected: &Vec<FileSystemItem>) -> (r: Vec<FileManagerActions>)
    ensures
        r@.len() == selected@.len(),
        forall|i: int|
            0 <= i < r@.len() ==> spec_props_action_for(selected@[i], #[trigger] r@[i]),
{
    let len = selected.len();
    let mut r: Vec<FileManagerActions> = Vec::new();
    let mut i: usize = 0;
    while i < len
        invariant
            0 <= i <= len,
            len == selected@.len(),
            r@.len() == i,
            forall|k: int|
                0 <= k < r@.len() ==> spec_props_action_for(selected@[k], #[trigger] r@[k]),
        decreases len - i,
    {
        let message = props_message(&selected[i]);
        r.push(
            FileManagerActions::App(AppAction::ShowModal(ModalType::MessageboxModal(message))),
        );
        i += 1;
    }
    r
}

/// Plans a quick-jump command: open the bound path, or nothing when
/// the command is unbound.
fn plan_command(s: &AppState, side: PanelSide, tab: usize, name: String) -> (r: Vec<
    FileManagerActions,
>)
    ensures
        spec_command_plan(
            s.config.hotkey_commands_programs.spec_path_of(name@),
            side,
            tab as int,
            r@,
        ),
{
    let mut r: Vec<FileManagerActions> = Vec::new();
    let path = s.config.hotkey_commands_programs.get_path(name);
    if !path.as_str().is_empty() {
        r.push(
            FileManagerActions::Directory(
                DirectoryAction::Open {
                    panel: PanelInfo { path, tab, side },
                    in_new_tab: false,
                },
            ),
        );
    }
    r
}

/// Translates one key press on the tab of `tab_side` into the ordered
/// plan of actions to dispatch, as `spec_tab_key_plan` describes.  An
/// unfocused tab consumes nothing.
pub fn handle_tab_key(s: &AppState, tab_side: PanelSide, is_focused: bool, key: KeyEvent) -> (r:
    (Vec<FileManagerActions>, bool))
    requires
        s.wf(),
    ensures
        spec_tab_key_plan(*s, tab_side, is_focused, key, r.0@, r.1),
{
    let mut plan: Vec<FileManagerActions> = Vec::new();
    if !is_focused {
        return (plan, false);
    }
    let cfg = &s.config.keyboard_cfg;
    let tab_idx = match tab_side {
        PanelSide::Left => s.left_panel.current_tab,
        PanelSide::Right => s.right_panel.current_tab,
    };
    let tab_state = match tab_side {
        PanelSide::Left => &s.left_panel.tabs[s.left_panel.current_tab],
        PanelSide::Right => &s.right_panel.tabs[s.right_panel.current_tab],
    };
    let other_side = match tab_side {
        PanelSide::Left => PanelSide::Right,
        PanelSide::Right => PanelSide::Left,
    };
    let other_idx = match other_side {
        PanelSide::Left => s.left_panel.current_tab,
        PanelSide::Right => s.right_panel.current_tab,
    };
    let other_path = match other_side {
        PanelSide::Left => s.left_panel.tabs[s.left_panel.current_tab].path.clone(),
        PanelSide::Right => s.right_panel.tabs[s.right_panel.current_tab].path.clone(),
    };

    if cfg.close.is_pressed(key) && (tab_state.search_mode || !tab_state.phrase.as_str().is_empty())
    {
        plan.push(
            FileManagerActions::Search(
                SearchAction::Stop { tab: tab_idx, panel_side: tab_side },
            ),
        );
        proof {
            assert(plan@ =~= seq![
                FileManagerActions::Search(
                    SearchAction::Stop { tab: tab_idx, panel_side: tab_side },
                ),
            ]);
        }
        return (plan, true);
    }
    if cfg.accept.is_pressed(key) && tab_state.search_mode
        && !tab_state.phrase.as_str().is_empty() {
        plan.push(
            FileManagerActions::Search(
                SearchAction::ApplySearch { tab: tab_idx, panel_side: tab_side },
            ),
        );
        proof {
            assert(plan@ =~= seq![
                FileManagerActions::Search(
                    SearchAction::ApplySearch { tab: tab_idx, panel_side: tab_side },
                ),
            ]);
        }
        return (plan, true);
    }
    if tab_state.search_mode {
        let mut phrase = tab_state.phrase.clone();
        match key.code {
            KeyCode::Char(c) => {
                push_char(&mut phrase, c);
            },
            KeyCode::Backspace => {
                let _dropped = pop_char(&mut phrase);
            },
            _ => {},
        }
        plan.push(
            FileManagerActions::Search(
                SearchAction::Input { tab: tab_idx, panel_side: tab_side, phrase },
            ),
        );
        return (plan, true);
    }
    if cfg.search_in_panel.is_pressed(key) {
        plan.push(
            FileManagerActions::Search(
                SearchAction::Start { tab: tab_idx, panel_side: tab_side },
            ),
        );
        proof {
            assert(plan@ =~= seq![
                FileManagerActions::Search(
                    SearchAction::Start { tab: tab_idx, panel_side: tab_side },
                ),
            ]);
        }
        return (plan, true);
    }
    if cfg.move_down.is_pressed(key) {
        plan.push(FileManagerActions::Tab(TabAction::Next));
        proof {
            assert(plan@ =~= seq![FileManagerActions::Tab(TabAction::Next)]);
        }
        return (plan, true);
    }
    if cfg.move_up.is_pressed(key) {
        plan.push(FileManagerActions::Tab(TabAction::Previous));
        proof {
            assert(plan@ =~= seq![FileManagerActions::Tab(TabAction::Previous)]);
        }
        return (plan, true);
    }
    if cfg.select_next.is_pressed(key) {
        plan.push(FileManagerActions::Tab(TabAction::SelectNext));
        proof {
            assert(plan@ =~= seq![FileManagerActions::Tab(TabAction::SelectNext)]);
        }
        return (plan, true);
    }
    if cfg.select_prev.is_pressed(key) {
        plan.push(FileManagerActions::Tab(TabAction::SelectPrev));
        proof {
            assert(plan@ =~= seq![FileManagerActions::Tab(TabAction::SelectPrev)]);
        }
        return (plan, true);
    }
    if cfg.close.is_pressed(key) && !tab_state.selected.is_empty() {
        plan.push(FileManagerActions::Tab(TabAction::ClearSelection));
        proof {
            assert(plan@ =~= seq![FileManagerActions::Tab(TabAction::ClearSelection)]);
        }
        return (plan, true);
    }
    if cfg.navigate_up.is_pressed(key) {
        match parent_of(&tab_state.path) {
            Some(parent) => {
                plan.push(
                    FileManagerActions::Directory(
                        DirectoryAction::Open {
                            panel: PanelInfo { path: parent, tab: tab_idx, side: tab_side },
                            in_new_tab: false,
                        },
                    ),
                );
            },
            None => {},
        }
        return (plan, true);
    }
    if cfg.command_1.is_pressed(key) {
        return (plan_command(s, tab_side, tab_idx, String::from_str("command_1")), true);
    }
    if cfg.command_2.is_pressed(key) {
        return (plan_command(s, tab_side, tab_idx, String::from_str("command_2")), true);
    }
    if cfg.command_3.is_pressed(key) {
        return (plan_command(s, tab_side, tab_idx, String::from_str("command_3")), true);
    }
    if cfg.command_4.is_pressed(key) {
        return (plan_command(s, tab_side, tab_idx, String::from_str("command_4")), true);
    }
    if cfg.command_5.is_pressed(key) {
        return (plan_command(s, tab_side, tab_idx, String::from_str("command_5")), true);
    }
    if cfg.command_6.is_pressed(key) {
        return (plan_command(s, tab_side, tab_idx, String::from_str("command_6")), true);
    }
    if cfg.command_7.is_pressed(key) {
        return (plan_command(s, tab_side, tab_idx, String::from_str("command_7")), true);
    }
    if cfg.command_8.is_pressed(key) {
        return (plan_command(s, tab_side, tab_idx, String::from_str("command_8")), true);
    }
    if cfg.command_9.is_pressed(key) {
        return (plan_command(s, tab_side, tab_idx, String::from_str("command_9")), true);
    }
    if cfg.open_as_tab.is_pressed(key) {
        return (plan_batch_open_as_tab(&tab_state.selected, tab_side, tab_idx), true);
    }
    if cfg.open.is_pressed(key) {
        return (plan_batch_open(&tab_state.selected, tab_side, tab_idx), true);
    }
    if cfg.delete.is_pressed(key) {
        let mut r = plan_batch_delete(&tab_state.selected, tab_side, tab_idx);
        let ghost batch = r@;
        r.push(FileManagerActions::Tab(TabAction::SelectNext));
        proof {
            assert(r@.drop_last() =~= batch);
        }
        return (r, true);
    }
    if cfg.move_left.is_pressed(key) && tab_side == PanelSide::Right {
        let mut r = plan_batch_move(
            &tab_state.selected,
            tab_side,
            tab_idx,
            other_side,
            other_idx,
            &other_path,
        );
        let ghost batch = r@;
        r.push(FileManagerActions::Tab(TabAction::SelectNext));
        proof {
            assert(r@.drop_last() =~= batch);
        }
        return (r, true);
    }
    if cfg.move_right.is_pressed(key) && tab_side == PanelSide::Left {
        let mut r = plan_batch_move(
            &tab_state.selected,
            tab_side,
            tab_idx,
            other_side,
            other_idx,
            &other_path,
        );
        let ghost batch = r@;
        r.push(FileManagerActions::Tab(TabAction::SelectNext));
        proof {
            assert(r@.drop_last() =~= batch);
        }
        return (r, true);
    }
    if cfg.move_fs_item.is_pressed(key) {
        let mut r = plan_batch_move(
            &tab_state.selected,
            tab_side,
            tab_idx,
            other_side,
            other_idx,
            &other_path,
        );
        let ghost batch = r@;
        r.push(FileManagerActions::Tab(TabAction::Next));
        proof {
            assert(r@.drop_last() =~= batch);
        }
        return (r, true);
    }
    if cfg.copy_to_left.is_pressed(key) && tab_side == PanelSide::Right {
        let mut r = plan_batch_copy(
            &tab_state.selected,
            tab_side,
            tab_idx,
            other_side,
            other_idx,
            &other_path,
        );
        let ghost batch = r@;
        r.push(FileManagerActions::Tab(TabAction::Next));
        proof {
            assert(r@.drop_last() =~= batch);
        }
        return (r, true);
    }
    if cfg.copy_to_right.is_pressed(key) && tab_side == PanelSide::Left {
        let mut r = plan_batch_copy(
            &tab_state.selected,
            tab_side,
            tab_idx,
            other_side,
            other_idx,
            &other_path,
        );
        let ghost batch = r@;
        r.push(FileManagerActions::Tab(TabAction::Next));
        proof {
            assert(r@.drop_last() =~= batch);
        }
        return (r, true);
    }
    if cfg.copy_fs_item.is_pressed(key) {
        let mut r = plan_batch_copy(
            &tab_state.selected,
            tab_side,
            tab_idx,
            other_side,
            other_idx,
            &other_path,
        );
        let ghost batch = r@;
        r.push(FileManagerActions::Tab(TabAction::Next));
        proof {
            assert(r@.drop_last() =~= batch);
        }
        return (r, true);
    }
    if cfg.print_test_info.is_pressed(key) {
        return (plan, true);
    }
    if cfg.filesystem_item_props.is_pressed(key) {
        return (plan_props(&tab_state.selected), true);
    }
    if tab_state.selected.len() == 1 || tab_state.cursor.is_none() {
        if cfg.rename.is_pressed(key) {
            match tab_state.current_item() {
                Some(item) => {
                    plan.push(
                        FileManagerActions::App(
                            AppAction::ShowModal(
                                ModalType::RenameModal {
                                    panel_side: tab_side,
                                    panel_tab: tab_idx,
                                    item,
                                },
                            ),
                        ),
                    );
                    return (plan, true);
                },
                None => {},
            }
        }
        if cfg.create.is_pressed(key) {
            plan.push(
                FileManagerActions::App(
                    AppAction::ShowModal(
                        ModalType::CreateModal {
                            item_index: tab_state.cursor,
                            panel_side: tab_side,
                            panel_tab: tab_idx,
                            panel_tab_path: tab_state.path.clone(),
                        },
                    ),
                ),
            );
            return (plan, true);
        }
    }
    (plan, false)
}

} // verus!
