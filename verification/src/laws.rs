//! Guarantees of the store stated on their own, over the transition
//! relations the contracts use.

use vstd::prelude::*;

use crate::actions::{DirectoryAction, ModalType, PanelInfo};
use crate::file_system::FileSystemItem;
use crate::state::{
    lemma_retain_present_subset, spec_apply_listing_rel, spec_contains_path,
    spec_search_apply_rel, spec_search_stop_rel, AppState, TabState,
};
use crate::store::{spec_directory_post, FsEffect};

verus! {

/// After any reload, the selection is a subset of the listing: every
/// selected item's path occurs among the new items.
pub proof fn lemma_reload_selection_subset(
    pre: TabState,
    post: TabState,
    items: Seq<FileSystemItem>,
)
    requires
        spec_apply_listing_rel(pre, post, items),
    ensures
        forall|i: int|
            0 <= i < post.selected@.len() ==> spec_contains_path(
                post.items@,
                #[trigger] post.selected@[i].spec_path(),
            ),
{
    lemma_retain_present_subset(pre.selected@, items);
}

/// A directory moved onto its own path never reaches the filesystem:
/// no effect is emitted, and exactly one message box is raised.
pub proof fn lemma_self_move_no_filesystem_work(
    pre: AppState,
    pre_eff: Seq<FsEffect>,
    post: AppState,
    post_eff: Seq<FsEffect>,
    from: PanelInfo,
    to: PanelInfo,
    handled: bool,
)
    requires
        from.path@ == to.path@,
        spec_directory_post(
            pre,
            pre_eff,
            post,
            post_eff,
            DirectoryAction::Move { from, to },
            handled,
        ),
    ensures
        handled,
        post_eff == pre_eff,
        post == (AppState { modal: post.modal, ..pre }),
        match post.modal {
            Some(ModalType::MessageboxModal(_)) => true,
            _ => false,
        },
{
}

/// Stopping a search is available whenever the phrase is non-empty,
/// whatever the mode flag says; afterwards the phrase is empty and the
/// mode off.
pub proof fn lemma_search_stop_reachable(pre: TabState, post: TabState, handled: bool)
    requires
        spec_search_stop_rel(pre, post, handled),
        pre.phrase@.len() > 0,
    ensures
        handled,
        post.phrase@.len() == 0,
        post.search_mode == false,
{
}

/// Committing a search with an empty phrase is rejected outright, even
/// in search mode: nothing changes.
pub proof fn lemma_search_apply_rejects_empty(pre: TabState, post: TabState, handled: bool)
    requires
        spec_search_apply_rel(pre, post, handled),
        pre.phrase@.len() == 0,
    ensures
        !handled,
        post == pre,
{
}

} // verus!
