//! The store: sole owner of the application state, with a single
//! mutation entry point.  `dispatch` applies exactly one synchronous
//! transition per action; filesystem work is never performed here but
//! described by effect values the embedding program executes in order.

use vstd::prelude::*;
use vstd::string::StringExecFns;

use crate::actions::{
    AppAction, DirectoryAction, FileAction, FileManagerActions, ModalType, PanelInfo, PanelSide,
    SearchAction, SymlinkAction, TabAction,
};
use crate::file_system::{clone_items, FileSystemItem};
use crate::state::{
    spec_apply_listing_rel, spec_clear_selection_rel, spec_next_tab_rel, spec_panel_site,
    spec_prev_tab_rel, spec_search_apply_rel, spec_search_input_rel, spec_search_start_rel,
    spec_search_stop_rel, spec_select_next_rel, spec_select_prev_rel, AppState, PanelState,
    TabState,
};

verus! {

/// One unit of filesystem work the embedding program performs on the
/// store's behalf, in the order emitted.
#[derive(Clone, Debug)]
pub enum FsEffect {
    DeleteFile { path: String },
    DeleteDirRecursive { path: String },
    DeleteDirEmpty { path: String },
    Rename { from: String, to: String },
    CopyFile { from: String, to: String },
    CopyDir { from: String, to: String },
    OpenFile { path: String },
    OpenSymlink { path: String, tab: usize, panel_side: PanelSide, in_new_tab: bool },
    Reload { panel_side: PanelSide, path: String },
}

/// `post` is `pre` with at most the named panel replaced.
pub open spec fn spec_app_with_panel(pre: AppState, post: AppState, side: PanelSide) -> bool {
    match side {
        PanelSide::Left => post == (AppState { left_panel: post.left_panel, ..pre }),
        PanelSide::Right => post == (AppState { right_panel: post.right_panel, ..pre }),
    }
}

/// A tab that was just created on `path`: nothing loaded, nothing
/// selected, browsing mode.
pub open spec fn spec_fresh_tab(t: TabState, path: Seq<char>) -> bool {
    &&& t.name@ == path
    &&& t.path@ == path
    &&& t.items@.len() == 0
    &&& t.selected@.len() == 0
    &&& t.search_mode == false
    &&& t.phrase@.len() == 0
    &&& t.cursor is None
}

/// The removal a directory delete asks for: non-recursive for a
/// directory cached as empty, recursive otherwise.
pub open spec fn spec_dir_delete_effect(path: String, is_empty: bool) -> FsEffect {
    if is_empty {
        FsEffect::DeleteDirEmpty { path }
    } else {
        FsEffect::DeleteDirRecursive { path }
    }
}

/// The message shown when a directory would be moved or copied onto
/// itself.
pub open spec fn spec_conflict_message(from: Seq<char>, to: Seq<char>) -> Seq<char> {
    "Can't move \n "@ + from + " \n into \n "@ + to
}

/// Builds the self-move conflict message.
pub fn build_conflict_message(from: &String, to: &String) -> (r: String)
    ensures
        r@ == spec_conflict_message(from@, to@),
{
    let mut m = String::from_str("Can't move \n ");
    m.append(from.as_str());
    m.append(" \n into \n ");
    m.append(to.as_str());
    proof {
        assert(m@ =~= spec_conflict_message(from@, to@));
    }
    m
}

/// What a tab-domain action does: cursor and tab cycling act on the
/// focused panel, reloads only emit an effect.
pub open spec fn spec_tab_post(
    pre: AppState,
    pre_eff: Seq<FsEffect>,
    post: AppState,
    post_eff: Seq<FsEffect>,
    a: TabAction,
    handled: bool,
) -> bool {
    match a {
        TabAction::Next => {
            &&& handled
            &&& post_eff == pre_eff
            &&& spec_app_with_panel(pre, post, pre.focused_panel)
            &&& spec_next_tab_rel(
                pre.spec_panel(pre.focused_panel),
                post.spec_panel(pre.focused_panel),
            )
        },
        TabAction::Previous => {
            &&& handled
            &&& post_eff == pre_eff
            &&& spec_app_with_panel(pre, post, pre.focused_panel)
            &&& spec_prev_tab_rel(
                pre.spec_panel(pre.focused_panel),
                post.spec_panel(pre.focused_panel),
            )
        },
        TabAction::SelectNext => {
            let pp = pre.spec_panel(pre.focused_panel);
            let qp = post.spec_panel(pre.focused_panel);
            &&& handled
            &&& post_eff == pre_eff
            &&& spec_app_with_panel(pre, post, pre.focused_panel)
            &&& spec_panel_site(pp, qp, pp.current_tab as int)
            &&& spec_select_next_rel(
                pp.tabs@[pp.current_tab as int],
                qp.tabs@[pp.current_tab as int],
            )
        },
        TabAction::SelectPrev => {
            let pp = pre.spec_panel(pre.focused_panel);
            let qp = post.spec_panel(pre.focused_panel);
            &&& handled
            &&& post_eff == pre_eff
            &&& spec_app_with_panel(pre, post, pre.focused_panel)
            &&& spec_panel_site(pp, qp, pp.current_tab as int)
            &&& spec_select_prev_rel(
                pp.tabs@[pp.current_tab as int],
                qp.tabs@[pp.current_tab as int],
            )
        },
        TabAction::ClearSelection => {
            let pp = pre.spec_panel(pre.focused_panel);
            let qp = post.spec_panel(pre.focused_panel);
            &&& handled
            &&& post_eff == pre_eff
            &&& spec_app_with_panel(pre, post, pre.focused_panel)
            &&& spec_panel_site(pp, qp, pp.current_tab as int)
            &&& spec_clear_selection_rel(
                pp.tabs@[pp.current_tab as int],
                qp.tabs@[pp.current_tab as int],
            )
        },
        TabAction::ReloadTab { panel_side, path } => {
            &&& handled
            &&& post == pre
            &&& post_eff == pre_eff.push(FsEffect::Reload { panel_side, path })
        },
    }
}

/// What a search-domain action does to the targeted tab; an invalid
/// tab index is a defensive no-op.
pub open spec fn spec_search_post(
    pre: AppState,
    pre_eff: Seq<FsEffect>,
    post: AppState,
    post_eff: Seq<FsEffect>,
    a: SearchAction,
    handled: bool,
) -> bool {
    post_eff == pre_eff && match a {
        SearchAction::Start { tab, panel_side } => {
            if tab < pre.spec_panel(panel_side).tabs@.len() {
                &&& spec_app_with_panel(pre, post, panel_side)
                &&& spec_panel_site(
                    pre.spec_panel(panel_side),
                    post.spec_panel(panel_side),
                    tab as int,
                )
                &&& spec_search_start_rel(
                    pre.spec_panel(panel_side).tabs@[tab as int],
                    post.spec_panel(panel_side).tabs@[tab as int],
                    handled,
                )
            } else {
                !handled && post == pre
            }
        },
        SearchAction::Stop { tab, panel_side } => {
            if tab < pre.spec_panel(panel_side).tabs@.len() {
                &&& spec_app_with_panel(pre, post, panel_side)
                &&& spec_panel_site(
                    pre.spec_panel(panel_side),
                    post.spec_panel(panel_side),
                    tab as int,
                )
                &&& spec_search_stop_rel(
                    pre.spec_panel(panel_side).tabs@[tab as int],
                    post.spec_panel(panel_side).tabs@[tab as int],
                    handled,
                )
            } else {
                !handled && post == pre
            }
        },
        SearchAction::Input { tab, panel_side, phrase } => {
            if tab < pre.spec_panel(panel_side).tabs@.len() {
                &&& spec_app_with_panel(pre, post, panel_side)
                &&& spec_panel_site(
                    pre.spec_panel(panel_side),
                    post.spec_panel(panel_side),
                    tab as int,
                )
                &&& spec_search_input_rel(
                    pre.spec_panel(panel_side).tabs@[tab as int],
                    post.spec_panel(panel_side).tabs@[tab as int],
                    phrase@,
                    handled,
                )
            } else {
                !handled && post == pre
            }
        },
        SearchAction::ApplySearch { tab, panel_side } => {
            if tab < pre.spec_panel(panel_side).tabs@.len() {
                &&& spec_app_with_panel(pre, post, panel_side)
                &&& spec_panel_site(
                    pre.spec_panel(panel_side),
                    post.spec_panel(panel_side),
                    tab as int,
                )
                &&& spec_search_apply_rel(
                    pre.spec_panel(panel_side).tabs@[tab as int],
                    post.spec_panel(panel_side).tabs@[tab as int],
                    handled,
                )
            } else {
                !handled && post == pre
            }
        },
    }
}

/// What a directory-domain action does.  A move or copy of a directory
/// onto its own path performs no filesystem work and raises exactly one
/// message box; otherwise the work is emitted as one effect.
pub open spec fn spec_directory_post(
    pre: AppState,
    pre_eff: Seq<FsEffect>,
    post: AppState,
    post_eff: Seq<FsEffect>,
    a: DirectoryAction,
    handled: bool,
) -> bool {
    match a {
        DirectoryAction::Open { panel, in_new_tab } => {
            if in_new_tab {
                let pp = pre.spec_panel(panel.side);
                let qp = post.spec_panel(panel.side);
                &&& handled
                &&& spec_app_with_panel(pre, post, panel.side)
                &&& qp == (PanelState { tabs: qp.tabs, current_tab: qp.current_tab, ..pp })
                &&& qp.tabs@ == pp.tabs@.push(qp.tabs@.last())
                &&& spec_fresh_tab(qp.tabs@.last(), panel.path@)
                &&& qp.current_tab == pp.tabs@.len()
                &&& post_eff == pre_eff.push(
                    FsEffect::Reload { panel_side: panel.side, path: panel.path },
                )
            } else {
                if panel.tab < pre.spec_panel(panel.side).tabs@.len() {
                    let pp = pre.spec_panel(panel.side);
                    let qp = post.spec_panel(panel.side);
                    &&& handled
                    &&& spec_app_with_panel(pre, post, panel.side)
                    &&& qp == (PanelState { tabs: qp.tabs, current_tab: qp.current_tab, ..pp })
                    &&& qp.tabs@ == pp.tabs@.update(panel.tab as int, qp.tabs@[panel.tab as int])
                    &&& spec_fresh_tab(qp.tabs@[panel.tab as int], panel.path@)
                    &&& qp.current_tab == panel.tab
                    &&& post_eff == pre_eff.push(
                        FsEffect::Reload { panel_side: panel.side, path: panel.path },
                    )
                } else {
                    !handled && post == pre && post_eff == pre_eff
                }
            }
        },
        DirectoryAction::Delete { panel, is_empty } => {
            &&& handled
            &&& post == pre
            &&& post_eff == pre_eff.push(spec_dir_delete_effect(panel.path, is_empty))
        },
        DirectoryAction::Move { from, to } => {
            if from.path@ == to.path@ {
                &&& handled
                &&& post == (AppState { modal: post.modal, ..pre })
                &&& match post.modal {
                    Some(ModalType::MessageboxModal(m)) => m@ == spec_conflict_message(
                        from.path@,
                        to.path@,
                    ),
                    _ => false,
                }
                &&& post_eff == pre_eff
            } else {
                &&& handled
                &&& post == pre
                &&& post_eff == pre_eff.push(FsEffect::Rename { from: from.path, to: to.path })
            }
        },
        DirectoryAction::Copy { from, to } => {
            if from.path@ == to.path@ {
                &&& handled
                &&& post == (AppState { modal: post.modal, ..pre })
                &&& match post.modal {
                    Some(ModalType::MessageboxModal(m)) => m@ == spec_conflict_message(
                        from.path@,
                        to.path@,
                    ),
                    _ => false,
                }
                &&& post_eff == pre_eff
            } else {
                &&& handled
                &&& post == pre
                &&& post_eff == pre_eff.push(FsEffect::CopyDir { from: from.path, to: to.path })
            }
        },
    }
}

/// What a file-domain action does: files carry no self-move guard; the
/// work is emitted as one effect.
pub open spec fn spec_file_post(
    pre: AppState,
    pre_eff: Seq<FsEffect>,
    post: AppState,
    post_eff: Seq<FsEffect>,
    a: FileAction,
    handled: bool,
) -> bool {
    handled && post == pre && match a {
        FileAction::Open { panel } => post_eff == pre_eff.push(
            FsEffect::OpenFile { path: panel.path },
        ),
        FileAction::Delete { panel } => post_eff == pre_eff.push(
            FsEffect::DeleteFile { path: panel.path },
        ),
        FileAction::Move { from, to } => post_eff == pre_eff.push(
            FsEffect::Rename { from: from.path, to: to.path },
        ),
        FileAction::Copy { from, to } => post_eff == pre_eff.push(
            FsEffect::CopyFile { from: from.path, to: to.path },
        ),
    }
}

/// What a symlink-domain action does: opening is resolved by the
/// embedding program, deletion removes the link itself.
pub open spec fn spec_symlink_post(
    pre: AppState,
    pre_eff: Seq<FsEffect>,
    post: AppState,
    post_eff: Seq<FsEffect>,
    a: SymlinkAction,
    handled: bool,
) -> bool {
    handled && post == pre && match a {
        SymlinkAction::Open { panel, in_new_tab } => post_eff == pre_eff.push(
            FsEffect::OpenSymlink {
                path: panel.path,
                tab: panel.tab,
                panel_side: panel.side,
                in_new_tab,
            },
        ),
        SymlinkAction::Delete { panel } => post_eff == pre_eff.push(
            FsEffect::DeleteFile { path: panel.path },
        ),
    }
}

/// What an application-domain action does to the modal overlay.
pub open spec fn spec_app_post(
    pre: AppState,
    pre_eff: Seq<FsEffect>,
    post: AppState,
    post_eff: Seq<FsEffect>,
    a: AppAction,
    handled: bool,
) -> bool {
    handled && post_eff == pre_eff && match a {
        AppAction::ShowModal(m) => post == (AppState { modal: Some(m), ..pre }),
        AppAction::CloseModal => post == (AppState { modal: None, ..pre }),
    }
}

/// The complete effect of one dispatch, by action domain.
pub open spec fn spec_dispatch_post(
    pre: AppState,
    pre_eff: Seq<FsEffect>,
    post: AppState,
    post_eff: Seq<FsEffect>,
    action: FileManagerActions,
    handled: bool,
) -> bool {
    match action {
        FileManagerActions::App(a) => spec_app_post(pre, pre_eff, post, post_eff, a, handled),
        FileManagerActions::File(a) => spec_file_post(pre, pre_eff, post, post_eff, a, handled),
        FileManagerActions::Directory(a) => spec_directory_post(
            pre,
            pre_eff,
            post,
            post_eff,
            a,
            handled,
        ),
        FileManagerActions::Symlink(a) => spec_symlink_post(
            pre,
            pre_eff,
            post,
            post_eff,
            a,
            handled,
        ),
        FileManagerActions::Tab(a) => spec_tab_post(pre, pre_eff, post, post_eff, a, handled),
        FileManagerActions::Search(a) => spec_search_post(
            pre,
            pre_eff,
            post,
            post_eff,
            a,
            handled,
        ),
    }
}

/// The single owner of the application state.  Observers read the
/// state between dispatches and never during one; the pending effects
/// are drained and executed by the embedding program.
#[derive(Debug)]
pub struct Store {
    pub state: AppState,
    pub effects: Vec<FsEffect>,
}

impl Store {
    pub open spec fn wf(&self) -> bool {
        self.state.wf()
    }

    /// A store over an initial state, with nothing pending.
    pub fn new(state: AppState) -> (r: Self)
        requires
            state.wf(),
        ensures
            r.state == state,
            r.effects@.len() == 0,
            r.wf(),
    {
        Store { state, effects: Vec::new() }
    }

    /// Moves the keyboard focus to `side`.  Focus is view state, not an
    /// action of the closed taxonomy, but it still changes only through
    /// the store.
    pub fn set_focus(&mut self, side: PanelSide)
        ensures
            final(self).state == (AppState { focused_panel: side, ..old(self).state }),
            final(self).effects == old(self).effects,
            old(self).wf() ==> final(self).wf(),
    {
        self.state.focused_panel = side;
    }

    /// Hands the pending effects over for execution, oldest first, and
    /// clears the queue.  The state is untouched.
    pub fn take_effects(&mut self) -> (r: Vec<FsEffect>)
        ensures
            r == old(self).effects,
            final(self).effects@.len() == 0,
            final(self).state == old(self).state,
    {
        let mut out: Vec<FsEffect> = Vec::new();
        core::mem::swap(&mut out, &mut self.effects);
        out
    }

    /// Applies exactly one transition.  The return value says whether
    /// the action was recognized and applicable; inapplicable actions
    /// leave the state unchanged.
    pub fn dispatch(&mut self, action: FileManagerActions) -> (handled: bool)
        requires
            old(self).wf(),
        ensures
            final(self).wf(),
            spec_dispatch_post(
                old(self).state,
                old(self).effects@,
                final(self).state,
                final(self).effects@,
                action,
                handled,
            ),
    {
        match action {
            FileManagerActions::App(a) => self.do_app(a),
            FileManagerActions::File(a) => self.do_file(a),
            FileManagerActions::Directory(a) => self.do_directory(a),
            FileManagerActions::Symlink(a) => self.do_symlink(a),
            FileManagerActions::Tab(a) => self.do_tab(a),
            FileManagerActions::Search(a) => self.do_search(a),
        }
    }

    fn do_app(&mut self, a: AppAction) -> (handled: bool)
        requires
            old(self).wf(),
        ensures
            final(self).wf(),
            spec_app_post(
                old(self).state,
                old(self).effects@,
                final(self).state,
                final(self).effects@,
                a,
                handled,
            ),
    {
        match a {
            AppAction::ShowModal(m) => {
                self.state.modal = Some(m);
            },
            AppAction::CloseModal => {
                self.state.modal = None;
            },
        }
        true
    }

    fn do_file(&mut self, a: FileAction) -> (handled: bool)
        requires
            old(self).wf(),
        ensures
            final(self).wf(),
            spec_file_post(
                old(self).state,
                old(self).effects@,
                final(self).state,
                final(self).effects@,
                a,
                handled,
            ),
    {
        match a {
            FileAction::Open { panel } => {
                self.effects.push(FsEffect::OpenFile { path: panel.path });
            },
            FileAction::Delete { panel } => {
                self.effects.push(FsEffect::DeleteFile { path: panel.path });
            },
            FileAction::Move { from, to } => {
                self.effects.push(FsEffect::Rename { from: from.path, to: to.path });
            },
            FileAction::Copy { from, to } => {
                self.effects.push(FsEffect::CopyFile { from: from.path, to: to.path });
            },
        }
        true
    }

    fn do_symlink(&mut self, a: SymlinkAction) -> (handled: bool)
        requires
            old(self).wf(),
        ensures
            final(self).wf(),
            spec_symlink_post(
                old(self).state,
                old(self).effects@,
                final(self).state,
                final(self).effects@,
                a,
                handled,
            ),
    {
        match a {
            SymlinkAction::Open { panel, in_new_tab } => {
                self.effects.push(
                    FsEffect::OpenSymlink {
                        path: panel.path,
                        tab: panel.tab,
                        panel_side: panel.side,
                        in_new_tab,
                    },
                );
            },
            SymlinkAction::Delete { panel } => {
                self.effects.push(FsEffect::DeleteFile { path: panel.path });
            },
        }
        true
    }

    fn do_directory(&mut self, a: DirectoryAction) -> (handled: bool)
        requires
            old(self).wf(),
        ensures
            final(self).wf(),
            spec_directory_post(
                old(self).state,
                old(self).effects@,
                final(self).state,
                final(self).effects@,
                a,
                handled,
            ),
    {
        match a {
            DirectoryAction::Open { panel, in_new_tab } => {
                let PanelInfo { path, tab, side } = panel;
                if in_new_tab {
                    let t = TabState::new(path.clone(), path.clone());
                    if side == PanelSide::Left {
                        let new_idx = self.state.left_panel.tabs.len();
                        self.state.left_panel.tabs.push(t);
                        self.state.left_panel.current_tab = new_idx;
                        proof {
                            assert(self.state.left_panel.tabs@ =~= old(
                                self,
                            ).state.left_panel.tabs@.push(self.state.left_panel.tabs@.last()));
                        }
                    } else {
                        let new_idx = self.state.right_panel.tabs.len();
                        self.state.right_panel.tabs.push(t);
                        self.state.right_panel.current_tab = new_idx;
                        proof {
                            assert(self.state.right_panel.tabs@ =~= old(
                                self,
                            ).state.right_panel.tabs@.push(self.state.right_panel.tabs@.last()));
                        }
                    }
                    self.effects.push(FsEffect::Reload { panel_side: side, path });
                    true
                } else {
                    if side == PanelSide::Left {
                        if tab >= self.state.left_panel.tabs.len() {
                            return false;
                        }
                        let t = TabState::new(path.clone(), path.clone());
                        let _stale = self.state.left_panel.tabs.remove(tab);
                        self.state.left_panel.tabs.insert(tab, t);
                        self.state.left_panel.current_tab = tab;
                        proof {
                            assert(self.state.left_panel.tabs@ =~= old(
                                self,
                            ).state.left_panel.tabs@.update(
                                tab as int,
                                self.state.left_panel.tabs@[tab as int],
                            ));
                        }
                    } else {
                        if tab >= self.state.right_panel.tabs.len() {
                            return false;
                        }
                        let t = TabState::new(path.clone(), path.clone());
                        let _stale = self.state.right_panel.tabs.remove(tab);
                        self.state.right_panel.tabs.insert(tab, t);
                        self.state.right_panel.current_tab = tab;
                        proof {
                            assert(self.state.right_panel.tabs@ =~= old(
                                self,
                            ).state.right_panel.tabs@.update(
                                tab as int,
                                self.state.right_panel.tabs@[tab as int],
                            ));
                        }
                    }
                    self.effects.push(FsEffect::Reload { panel_side: side, path });
                    true
                }
            },
            DirectoryAction::Delete { panel, is_empty } => {
                if is_empty {
                    self.effects.push(FsEffect::DeleteDirEmpty { path: panel.path });
                } else {
                    self.effects.push(FsEffect::DeleteDirRecursive { path: panel.path });
                }
                true
            },
            DirectoryAction::Move { from, to } => {
                if from.path == to.path {
                    let message = build_conflict_message(&from.path, &to.path);
                    self.state.modal = Some(ModalType::MessageboxModal(message));
                } else {
                    self.effects.push(FsEffect::Rename { from: from.path, to: to.path });
                }
                true
            },
            DirectoryAction::Copy { from, to } => {
                if from.path == to.path {
                    let message = build_conflict_message(&from.path, &to.path);
                    self.state.modal = Some(ModalType::MessageboxModal(message));
                } else {
                    self.effects.push(FsEffect::CopyDir { from: from.path, to: to.path });
                }
                true
            },
        }
    }

    fn do_tab(&mut self, a: TabAction) -> (handled: bool)
        requires
            old(self).wf(),
        ensures
            final(self).wf(),
            spec_tab_post(
                old(self).state,
                old(self).effects@,
                final(self).state,
                final(self).effects@,
                a,
                handled,
            ),
    {
        match a {
            TabAction::Next => {
                if self.state.focused_panel == PanelSide::Left {
                    self.state.left_panel.next_tab();
                } else {
                    self.state.right_panel.next_tab();
                }
                true
            },
            TabAction::Previous => {
                if self.state.focused_panel == PanelSide::Left {
                    self.state.left_panel.prev_tab();
                } else {
                    self.state.right_panel.prev_tab();
                }
                true
            },
            TabAction::SelectNext => {
                if self.state.focused_panel == PanelSide::Left {
                    self.state.left_panel.cur_select_next();
                } else {
                    self.state.right_panel.cur_select_next();
                }
                true
            },
            TabAction::SelectPrev => {
                if self.state.focused_panel == PanelSide::Left {
                    self.state.left_panel.cur_select_prev();
                } else {
                    self.state.right_panel.cur_select_prev();
                }
                true
            },
            TabAction::ClearSelection => {
                if self.state.focused_panel == PanelSide::Left {
                    self.state.left_panel.cur_clear_selection();
                } else {
                    self.state.right_panel.cur_clear_selection();
                }
                true
            },
            TabAction::ReloadTab { panel_side, path } => {
                self.effects.push(FsEffect::Reload { panel_side, path });
                true
            },
        }
    }

    fn do_search(&mut self, a: SearchAction) -> (handled: bool)
        requires
            old(self).wf(),
        ensures
            final(self).wf(),
            spec_search_post(
                old(self).state,
                old(self).effects@,
                final(self).state,
                final(self).effects@,
                a,
                handled,
            ),
    {
        match a {
            SearchAction::Start { tab, panel_side } => {
                if panel_side == PanelSide::Left {
                    self.state.left_panel.tab_search_start(tab)
                } else {
                    self.state.right_panel.tab_search_start(tab)
                }
            },
            SearchAction::Stop { tab, panel_side } => {
                if panel_side == PanelSide::Left {
                    self.state.left_panel.tab_search_stop(tab)
                } else {
                    self.state.right_panel.tab_search_stop(tab)
                }
            },
            SearchAction::Input { tab, panel_side, phrase } => {
                if panel_side == PanelSide::Left {
                    self.state.left_panel.tab_search_input(tab, phrase)
                } else {
                    self.state.right_panel.tab_search_input(tab, phrase)
                }
            },
            SearchAction::ApplySearch { tab, panel_side } => {
                if panel_side == PanelSide::Left {
                    self.state.left_panel.tab_search_apply(tab)
                } else {
                    self.state.right_panel.tab_search_apply(tab)
                }
            },
        }
    }

    /// Installs the listing an earlier reload effect asked for, into
    /// every tab of the panel whose path equals the reloaded path.
    pub fn finish_reload(
        &mut self,
        panel_side: PanelSide,
        path: &String,
        items: &Vec<FileSystemItem>,
    )
        requires
            old(self).wf(),
        ensures
            final(self).wf(),
            final(self).effects == old(self).effects,
            spec_app_with_panel(old(self).state, final(self).state, panel_side),
            ({
                let pp = old(self).state.spec_panel(panel_side);
                let qp = final(self).state.spec_panel(panel_side);
                &&& qp == (PanelState { tabs: qp.tabs, ..pp })
                &&& qp.tabs@.len() == pp.tabs@.len()
                &&& forall|i: int|
                    0 <= i < pp.tabs@.len() ==> if pp.tabs@[i].path@ == path@ {
                        spec_apply_listing_rel(pp.tabs@[i], #[trigger] qp.tabs@[i], items@)
                    } else {
                        qp.tabs@[i] == pp.tabs@[i]
                    }
            }),
    {
        if panel_side == PanelSide::Left {
            let len = self.state.left_panel.tabs.len();
            let mut i: usize = 0;
            while i < len
                invariant
                    0 <= i <= len,
                    len == self.state.left_panel.tabs@.len(),
                    old(self).wf(),
                    self.state.left_panel.wf(),
                    *self == (Store {
                        state: AppState { left_panel: self.state.left_panel, ..old(self).state },
                        effects: old(self).effects,
                    }),
                    self.state.left_panel == (PanelState {
                        tabs: self.state.left_panel.tabs,
                        ..old(self).state.left_panel
                    }),
                    forall|k: int|
                        i <= k < len ==> #[trigger] self.state.left_panel.tabs@[k] == old(
                            self,
                        ).state.left_panel.tabs@[k],
                    forall|k: int|
                        0 <= k < i ==> if old(self).state.left_panel.tabs@[k].path@ == path@ {
                            spec_apply_listing_rel(
                                old(self).state.left_panel.tabs@[k],
                                #[trigger] self.state.left_panel.tabs@[k],
                                items@,
                            )
                        } else {
                            self.state.left_panel.tabs@[k] == old(self).state.left_panel.tabs@[k]
                        },
                decreases len - i,
            {
                let is_match = self.state.left_panel.tabs[i].path == *path;
                if is_match {
                    let mut t = self.state.left_panel.tabs.remove(i);
                    t.apply_listing(clone_items(items));
                    self.state.left_panel.tabs.insert(i, t);
                }
                i += 1;
            }
        } else {
            let len = self.state.right_panel.tabs.len();
            let mut i: usize = 0;
            while i < len
                invariant
                    0 <= i <= len,
                    len == self.state.right_panel.tabs@.len(),
                    old(self).wf(),
                    self.state.right_panel.wf(),
                    *self == (Store {
                        state: AppState { right_panel: self.state.right_panel, ..old(self).state },
                        effects: old(self).effects,
                    }),
                    self.state.right_panel == (PanelState {
                        tabs: self.state.right_panel.tabs,
                        ..old(self).state.right_panel
                    }),
                    forall|k: int|
                        i <= k < len ==> #[trigger] self.state.right_panel.tabs@[k] == old(
                            self,
                        ).state.right_panel.tabs@[k],
                    forall|k: int|
                        0 <= k < i ==> if old(self).state.right_panel.tabs@[k].path@ == path@ {
                            spec_apply_listing_rel(
                                old(self).state.right_panel.tabs@[k],
                                #[trigger] self.state.right_panel.tabs@[k],
                                items@,
                            )
                        } else {
                            self.state.right_panel.tabs@[k] == old(self).state.right_panel.tabs@[k]
                        },
                decreases len - i,
            {
                let is_match = self.state.right_panel.tabs[i].path == *path;
                if is_match {
                    let mut t = self.state.right_panel.tabs.remove(i);
                    t.apply_listing(clone_items(items));
                    self.state.right_panel.tabs.insert(i, t);
                }
                i += 1;
            }
        }
    }

    /// One reconciliation step for the inspected tab of `panel_side`:
    /// `exists` answers, item by item, whether the cached path still
    /// exists.  At most one reload is requested, and only when some
    /// item failed its check.
    pub fn on_tick(&mut self, panel_side: PanelSide, exists: &Vec<bool>) -> (reloaded: bool)
        requires
            old(self).wf(),
            exists@.len() == old(self).state.spec_panel(panel_side).tabs@[old(
                self,
            ).state.spec_panel(panel_side).current_tab as int].items@.len(),
        ensures
            final(self).wf(),
            final(self).state == old(self).state,
            reloaded == exists|k: int| 0 <= k < exists@.len() && exists@[k] == false,
            !reloaded ==> final(self).effects == old(self).effects,
            reloaded ==> final(self).effects@ == old(self).effects@.push(
                FsEffect::Reload {
                    panel_side,
                    path: old(self).state.spec_panel(panel_side).tabs@[old(
                        self,
                    ).state.spec_panel(panel_side).current_tab as int].path,
                },
            ),
    {
        let len = exists.len();
        let mut i: usize = 0;
        let mut missing = false;
        while i < len && !missing
            invariant
                0 <= i <= len,
                len == exists@.len(),
                *self == *old(self),
                missing ==> exists|k: int| 0 <= k < exists@.len() && exists@[k] == false,
                !missing ==> forall|k: int| 0 <= k < i ==> exists@[k] == true,
            decreases len - i + (if missing {
                0int
            } else {
                1int
            }),
        {
            if !exists[i] {
                missing = true;
            } else {
                i += 1;
            }
        }
        if missing {
            let path = if panel_side == PanelSide::Left {
                self.state.left_panel.tabs[self.state.left_panel.current_tab].path.clone()
            } else {
                self.state.right_panel.tabs[self.state.right_panel.current_tab].path.clone()
            };
            self.effects.push(FsEffect::Reload { panel_side, path });
            true
        } else {
            false
        }
    }
}

} // verus!
