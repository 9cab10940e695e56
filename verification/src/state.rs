//! The state tree the store owns: a tab (one directory view with
//! selection, cursor and search state), a panel (an ordered stack of
//! tabs), and the application state holding both panels, the active
//! modal and the configuration snapshot.
//!
//! Each transition a tab or panel can make is stated as a relation
//! between the value before and after; the store's dispatch contract
//! is phrased over the same relations.

use vstd::prelude::*;

use crate::actions::{ModalType, PanelSide};
use crate::config::Config;
use crate::file_system::FileSystemItem;
use crate::textops::{name_matches, spec_name_matches};

verus! {

/// Whether some item of `items` carries the path `path`.
pub open spec fn spec_contains_path(items: Seq<FileSystemItem>, path: Seq<char>) -> bool {
    exists|i: int| 0 <= i < items.len() && #[trigger] items[i].spec_path() == path
}

/// Whether any item of `items` carries the path `path`.
pub fn contains_path(items: &Vec<FileSystemItem>, path: &String) -> (r: bool)
    ensures
        r == spec_contains_path(items@, path@),
{
    let mut i: usize = 0;
    let len = items.len();
    while i < len
        invariant
            0 <= i <= len,
            len == items@.len(),
            forall|k: int| 0 <= k < i ==> #[trigger] items@[k].spec_path() != path@,
        decreases len - i,
    {
        let p = items[i].get_path();
        if p == *path {
            return true;
        }
        i += 1;
    }
    false
}

/// The items whose names match the phrase, in listing order.
pub open spec fn spec_filter_items(
    items: Seq<FileSystemItem>,
    phrase: Seq<char>,
) -> Seq<FileSystemItem>
    decreases items.len(),
{
    if items.len() == 0 {
        Seq::<FileSystemItem>::empty()
    } else {
        let rest = spec_filter_items(items.drop_last(), phrase);
        if spec_name_matches(items.last().spec_name(), phrase) {
            rest.push(items.last())
        } else {
            rest
        }
    }
}

/// Every filtered item is one of the listed items.
pub proof fn lemma_filter_items_mem(items: Seq<FileSystemItem>, phrase: Seq<char>, i: int)
    requires
        0 <= i < spec_filter_items(items, phrase).len(),
    ensures
        exists|j: int|
            0 <= j < items.len() && items[j] == spec_filter_items(items, phrase)[i],
    decreases items.len(),
{
    if items.len() > 0 {
        let rest = spec_filter_items(items.drop_last(), phrase);
        if i < rest.len() {
            lemma_filter_items_mem(items.drop_last(), phrase, i);
            let j = choose|j: int| 0 <= j < items.drop_last().len() && items.drop_last()[j] == rest[i];
            assert(items[j] == spec_filter_items(items, phrase)[i]);
        } else {
            assert(items[items.len() - 1] == spec_filter_items(items, phrase)[i]);
        }
    }
}

/// The selected items whose paths still occur in `items`, in their old
/// order.
pub open spec fn spec_retain_present(
    selected: Seq<FileSystemItem>,
    items: Seq<FileSystemItem>,
) -> Seq<FileSystemItem>
    decreases selected.len(),
{
    if selected.len() == 0 {
        Seq::<FileSystemItem>::empty()
    } else {
        let rest = spec_retain_present(selected.drop_last(), items);
        if spec_contains_path(items, selected.last().spec_path()) {
            rest.push(selected.last())
        } else {
            rest
        }
    }
}

/// Whatever is retained has its path among `items`.
pub proof fn lemma_retain_present_subset(
    selected: Seq<FileSystemItem>,
    items: Seq<FileSystemItem>,
)
    ensures
        forall|i: int|
            0 <= i < spec_retain_present(selected, items).len() ==> spec_contains_path(
                items,
                #[trigger] spec_retain_present(selected, items)[i].spec_path(),
            ),
    decreases selected.len(),
{
    if selected.len() > 0 {
        lemma_retain_present_subset(selected.drop_last(), items);
        let r = spec_retain_present(selected, items);
        let rest = spec_retain_present(selected.drop_last(), items);
        assert forall|i: int| 0 <= i < r.len() implies spec_contains_path(
            items,
            #[trigger] r[i].spec_path(),
        ) by {
            if spec_contains_path(items, selected.last().spec_path()) {
                if i < rest.len() {
                    assert(r[i] == rest[i]);
                } else {
                    assert(r[i] == selected.last());
                }
            } else {
                assert(r[i] == rest[i]);
            }
        }
    }
}

/// The selected items without those carrying `path`, in their old order.
pub open spec fn spec_remove_path(
    selected: Seq<FileSystemItem>,
    path: Seq<char>,
) -> Seq<FileSystemItem>
    decreases selected.len(),
{
    if selected.len() == 0 {
        Seq::<FileSystemItem>::empty()
    } else {
        let rest = spec_remove_path(selected.drop_last(), path);
        if selected.last().spec_path() == path {
            rest
        } else {
            rest.push(selected.last())
        }
    }
}

/// Whatever survives the removal was selected before.
pub proof fn lemma_remove_path_mem(selected: Seq<FileSystemItem>, path: Seq<char>, i: int)
    requires
        0 <= i < spec_remove_path(selected, path).len(),
    ensures
        exists|j: int|
            0 <= j < selected.len() && selected[j] == spec_remove_path(selected, path)[i],
    decreases selected.len(),
{
    if selected.len() > 0 {
        let rest = spec_remove_path(selected.drop_last(), path);
        if i < rest.len() {
            lemma_remove_path_mem(selected.drop_last(), path, i);
            let j = choose|j: int|
                0 <= j < selected.drop_last().len() && selected.drop_last()[j] == rest[i];
            assert(selected[j] == spec_remove_path(selected, path)[i]);
        } else {
            assert(selected[selected.len() - 1] == spec_remove_path(selected, path)[i]);
        }
    }
}

/// A cursor clamped into a view of `flen` items: unset stays unset, a
/// position past the end moves to the last item, an empty view clears
/// it.
pub open spec fn spec_clamped_cursor(c: Option<usize>, flen: nat) -> Option<usize> {
    match c {
        None => None,
        Some(c) => if flen == 0 {
            None
        } else if c < flen {
            Some(c)
        } else {
            Some((flen - 1) as usize)
        },
    }
}

/// One directory view: the listing, the selection, the cursor into the
/// filtered view, and the search state.
#[derive(Debug)]
pub struct TabState {
    pub name: String,
    pub path: String,
    pub items: Vec<FileSystemItem>,
    pub selected: Vec<FileSystemItem>,
    pub search_mode: bool,
    pub phrase: String,
    pub cursor: Option<usize>,
}

/// The cursor advanced one filtered position, saturating at the end.
pub open spec fn spec_select_next_rel(pre: TabState, post: TabState) -> bool {
    &&& post == (TabState { cursor: post.cursor, ..pre })
    &&& post.cursor == (if pre.spec_filtered().len() == 0 {
        None::<usize>
    } else {
        match pre.cursor {
            None => Some(0usize),
            Some(c) => if c + 1 < pre.spec_filtered().len() {
                Some((c + 1) as usize)
            } else {
                Some(c)
            },
        }
    })
}

/// The cursor moved back one filtered position, saturating at the
/// start.
pub open spec fn spec_select_prev_rel(pre: TabState, post: TabState) -> bool {
    &&& post == (TabState { cursor: post.cursor, ..pre })
    &&& post.cursor == (if pre.spec_filtered().len() == 0 {
        None::<usize>
    } else {
        match pre.cursor {
            None => Some(0usize),
            Some(c) => if c > 0 {
                Some((c - 1) as usize)
            } else {
                Some(0usize)
            },
        }
    })
}

/// The selection emptied; nothing else moves.
pub open spec fn spec_clear_selection_rel(pre: TabState, post: TabState) -> bool {
    &&& post == (TabState { selected: post.selected, ..pre })
    &&& post.selected@.len() == 0
}

/// Search entered: only allowed while browsing; the phrase starts
/// empty.
pub open spec fn spec_search_start_rel(pre: TabState, post: TabState, handled: bool) -> bool {
    if pre.search_mode {
        !handled && post == pre
    } else {
        &&& handled
        &&& post == (TabState {
            search_mode: true,
            phrase: post.phrase,
            cursor: post.cursor,
            ..pre
        })
        &&& post.phrase@.len() == 0
        &&& post.cursor == spec_clamped_cursor(pre.cursor, post.spec_filtered().len())
    }
}

/// Search left and the phrase cleared.  Reachable whenever the phrase
/// is non-empty, whatever the mode flag says; afterwards the phrase is
/// always empty and the mode off.
pub open spec fn spec_search_stop_rel(pre: TabState, post: TabState, handled: bool) -> bool {
    &&& handled == (pre.search_mode || pre.phrase@.len() > 0)
    &&& post.phrase@.len() == 0
    &&& post.search_mode == false
    &&& if handled {
        &&& post == (TabState {
            search_mode: false,
            phrase: post.phrase,
            cursor: post.cursor,
            ..pre
        })
        &&& post.cursor == spec_clamped_cursor(pre.cursor, post.spec_filtered().len())
    } else {
        post == pre
    }
}

/// The phrase replaced verbatim while searching.
pub open spec fn spec_search_input_rel(
    pre: TabState,
    post: TabState,
    phrase: Seq<char>,
    handled: bool,
) -> bool {
    &&& handled == pre.search_mode
    &&& if handled {
        &&& post == (TabState { phrase: post.phrase, cursor: post.cursor, ..pre })
        &&& post.phrase@ == phrase
        &&& post.cursor == spec_clamped_cursor(pre.cursor, post.spec_filtered().len())
    } else {
        post == pre
    }
}

/// The filtered view committed: input capture ends, the filter stays.
/// Rejected while the phrase is empty, even in search mode.
pub open spec fn spec_search_apply_rel(pre: TabState, post: TabState, handled: bool) -> bool {
    &&& handled == (pre.search_mode && pre.phrase@.len() > 0)
    &&& if handled {
        post == (TabState { search_mode: false, ..pre })
    } else {
        post == pre
    }
}

/// A fresh listing installed: stale items discarded, the selection
/// keeps only the paths still listed, the cursor clamped into the new
/// filtered view; search state and path untouched.
pub open spec fn spec_apply_listing_rel(
    pre: TabState,
    post: TabState,
    items: Seq<FileSystemItem>,
) -> bool {
    &&& post == (TabState {
        items: post.items,
        selected: post.selected,
        cursor: post.cursor,
        ..pre
    })
    &&& post.items@ == items
    &&& post.selected@ == spec_retain_present(pre.selected@, items)
    &&& post.cursor == spec_clamped_cursor(pre.cursor, post.spec_filtered().len())
}

impl TabState {
    /// The filtered view: the full listing while no phrase is set,
    /// otherwise the items whose names match the phrase.
    pub open spec fn spec_filtered(&self) -> Seq<FileSystemItem> {
        if self.phrase@.len() == 0 {
            self.items@
        } else {
            spec_filter_items(self.items@, self.phrase@)
        }
    }

    /// The tab invariant: every selected item's path occurs in the
    /// listing, and the cursor, when set, indexes the filtered view.
    pub open spec fn wf(&self) -> bool {
        &&& forall|i: int|
            0 <= i < self.selected@.len() ==> spec_contains_path(
                self.items@,
                #[trigger] self.selected@[i].spec_path(),
            )
        &&& match self.cursor {
            Some(c) => c < self.spec_filtered().len(),
            None => true,
        }
    }

    /// A fresh tab on `path`, not yet loaded: empty listing, empty
    /// selection, no cursor, browsing mode.
    pub fn new(name: String, path: String) -> (r: Self)
        ensures
            r.name == name,
            r.path == path,
            r.items@.len() == 0,
            r.selected@.len() == 0,
            r.search_mode == false,
            r.phrase@.len() == 0,
            r.cursor is None,
            r.wf(),
    {
        TabState {
            name,
            path,
            items: Vec::new(),
            selected: Vec::new(),
            search_mode: false,
            phrase: String::new(),
            cursor: None,
        }
    }

    /// The filtered view as a vector.
    pub fn filtered_items(&self) -> (r: Vec<FileSystemItem>)
        ensures
            r@ == self.spec_filtered(),
    {
        let len = self.items.len();
        let mut r: Vec<FileSystemItem> = Vec::new();
        if self.phrase.as_str().is_empty() {
            let mut i: usize = 0;
            while i < len
                invariant
                    0 <= i <= len,
                    len == self.items@.len(),
                    r@ =~= self.items@.take(i as int),
                decreases len - i,
            {
                r.push((&self.items[i]).clone());
                proof {
                    assert(r@ =~= self.items@.take(i as int + 1));
                }
                i += 1;
            }
            proof {
                assert(self.items@.take(len as int) =~= self.items@);
            }
            r
        } else {
            let mut i: usize = 0;
            while i < len
                invariant
                    0 <= i <= len,
                    len == self.items@.len(),
                    self.phrase@.len() > 0,
                    r@ == spec_filter_items(self.items@.take(i as int), self.phrase@),
                decreases len - i,
            {
                proof {
                    assert(self.items@.take(i as int + 1).drop_last() =~= self.items@.take(
                        i as int,
                    ));
                    assert(self.items@.take(i as int + 1).last() == self.items@[i as int]);
                }
                let it = &self.items[i];
                let name = it.get_name();
                if name_matches(&name, &self.phrase) {
                    r.push(it.clone());
                }
                i += 1;
            }
            proof {
                assert(self.items@.take(len as int) =~= self.items@);
            }
            r
        }
    }

    /// The item under the cursor, if the cursor is set.
    pub fn current_item(&self) -> (r: Option<FileSystemItem>)
        requires
            self.wf(),
        ensures
            match self.cursor {
                Some(c) => r == Some(self.spec_filtered()[c as int]),
                None => r is None,
            },
    {
        match self.cursor {
            Some(c) => {
                let filtered = self.filtered_items();
                Some((&filtered[c]).clone())
            },
            None => None,
        }
    }

    /// The number of items in the filtered view.
    pub fn filtered_len(&self) -> (r: usize)
        ensures
            r == self.spec_filtered().len(),
    {
        self.filtered_items().len()
    }

    /// Clamps the cursor into the current filtered view.
    fn clamp_cursor(&mut self)
        ensures
            *final(self) == (TabState { cursor: final(self).cursor, ..*old(self) }),
            final(self).cursor == spec_clamped_cursor(
                old(self).cursor,
                old(self).spec_filtered().len(),
            ),
    {
        let flen = self.filtered_len();
        match self.cursor {
            Some(c) => {
                if flen == 0 {
                    self.cursor = None;
                } else if c >= flen {
                    self.cursor = Some(flen - 1);
                }
            },
            None => {},
        }
    }

    /// Advances the cursor to the next filtered position, entering the
    /// view at the top; it saturates at the last position.
    pub fn select_next(&mut self)
        requires
            old(self).wf(),
        ensures
            spec_select_next_rel(*old(self), *final(self)),
            final(self).wf(),
    {
        let flen = self.filtered_len();
        if flen == 0 {
            self.cursor = None;
        } else {
            match self.cursor {
                None => {
                    self.cursor = Some(0);
                },
                Some(c) => {
                    if c + 1 < flen {
                        self.cursor = Some(c + 1);
                    }
                },
            }
        }
    }

    /// Moves the cursor to the previous filtered position, entering the
    /// view at the top; it saturates at the first position.
    pub fn select_prev(&mut self)
        requires
            old(self).wf(),
        ensures
            spec_select_prev_rel(*old(self), *final(self)),
            final(self).wf(),
    {
        let flen = self.filtered_len();
        if flen == 0 {
            self.cursor = None;
        } else {
            match self.cursor {
                None => {
                    self.cursor = Some(0);
                },
                Some(c) => {
                    if c > 0 {
                        self.cursor = Some(c - 1);
                    }
                },
            }
        }
    }

    /// Empties the selection.
    pub fn clear_selection(&mut self)
        ensures
            spec_clear_selection_rel(*old(self), *final(self)),
            old(self).wf() ==> final(self).wf(),
    {
        self.selected = Vec::new();
    }

    /// Toggles the selection of the filtered item at `idx`: a selected
    /// path is dropped, an unselected one is added.
    pub fn toggle_select(&mut self, idx: usize)
        requires
            old(self).wf(),
            idx < old(self).spec_filtered().len(),
        ensures
            *final(self) == (TabState { selected: final(self).selected, ..*old(self) }),
            ({
                let it = old(self).spec_filtered()[idx as int];
                if spec_contains_path(old(self).selected@, it.spec_path()) {
                    final(self).selected@ == spec_remove_path(old(self).selected@, it.spec_path())
                } else {
                    final(self).selected@ == old(self).selected@.push(it)
                }
            }),
            final(self).wf(),
    {
        let filtered = self.filtered_items();
        let it = (&filtered[idx]).clone();
        let p = it.get_path();
        if contains_path(&self.selected, &p) {
            let len = self.selected.len();
            let mut kept: Vec<FileSystemItem> = Vec::new();
            let mut i: usize = 0;
            while i < len
                invariant
                    0 <= i <= len,
                    len == self.selected@.len(),
                    p@ == old(self).spec_filtered()[idx as int].spec_path(),
                    kept@ == spec_remove_path(self.selected@.take(i as int), p@),
                    *self == *old(self),
                decreases len - i,
            {
                proof {
                    assert(self.selected@.take(i as int + 1).drop_last() =~= self.selected@.take(
                        i as int,
                    ));
                    assert(self.selected@.take(i as int + 1).last() == self.selected@[i as int]);
                }
                let q = self.selected[i].get_path();
                if !(q == p) {
                    kept.push((&self.selected[i]).clone());
                }
                i += 1;
            }
            proof {
                assert(self.selected@.take(len as int) =~= self.selected@);
            }
            self.selected = kept;
            proof {
                assert forall|i2: int|
                    0 <= i2 < final(self).selected@.len() implies spec_contains_path(
                    final(self).items@,
                    #[trigger] final(self).selected@[i2].spec_path(),
                ) by {
                    lemma_remove_path_mem(old(self).selected@, p@, i2);
                }
            }
        } else {
            proof {
                if old(self).phrase@.len() == 0 {
                    assert(spec_contains_path(old(self).items@, it.spec_path()));
                } else {
                    lemma_filter_items_mem(old(self).items@, old(self).phrase@, idx as int);
                    let j = choose|j: int|
                        0 <= j < old(self).items@.len() && old(self).items@[j] == old(
                            self,
                        ).spec_filtered()[idx as int];
                    assert(old(self).items@[j].spec_path() == it.spec_path());
                }
            }
            self.selected.push(it);
        }
    }

    /// Installs a fresh listing, as `spec_apply_listing_rel` describes.
    pub fn apply_listing(&mut self, new_items: Vec<FileSystemItem>)
        ensures
            spec_apply_listing_rel(*old(self), *final(self), new_items@),
            final(self).wf(),
    {
        let len = self.selected.len();
        let mut kept: Vec<FileSystemItem> = Vec::new();
        let mut i: usize = 0;
        while i < len
            invariant
                0 <= i <= len,
                len == self.selected@.len(),
                kept@ == spec_retain_present(self.selected@.take(i as int), new_items@),
                *self == *old(self),
                new_items == new_items,
            decreases len - i,
        {
            proof {
                assert(self.selected@.take(i as int + 1).drop_last() =~= self.selected@.take(
                    i as int,
                ));
                assert(self.selected@.take(i as int + 1).last() == self.selected@[i as int]);
            }
            let q = self.selected[i].get_path();
            if contains_path(&new_items, &q) {
                kept.push((&self.selected[i]).clone());
            }
            i += 1;
        }
        proof {
            assert(self.selected@.take(len as int) =~= self.selected@);
        }
        self.items = new_items;
        self.selected = kept;
        proof {
            lemma_retain_present_subset(old(self).selected@, final(self).items@);
        }
        self.clamp_cursor();
    }

    /// Enters search input mode, as `spec_search_start_rel` describes.
    pub fn search_start(&mut self) -> (handled: bool)
        requires
            old(self).wf(),
        ensures
            spec_search_start_rel(*old(self), *final(self), handled),
            final(self).wf(),
    {
        if self.search_mode {
            return false;
        }
        self.search_mode = true;
        self.phrase = String::new();
        self.clamp_cursor();
        true
    }

    /// Leaves searching and clears the phrase, as
    /// `spec_search_stop_rel` describes.
    pub fn search_stop(&mut self) -> (handled: bool)
        requires
            old(self).wf(),
        ensures
            spec_search_stop_rel(*old(self), *final(self), handled),
            final(self).wf(),
    {
        if !self.search_mode && self.phrase.as_str().is_empty() {
            return false;
        }
        self.search_mode = false;
        self.phrase = String::new();
        self.clamp_cursor();
        true
    }

    /// Replaces the phrase verbatim while searching, as
    /// `spec_search_input_rel` describes; the caller resolves appended
    /// characters and backspaces before dispatch.
    pub fn search_input(&mut self, phrase: String) -> (handled: bool)
        requires
            old(self).wf(),
        ensures
            spec_search_input_rel(*old(self), *final(self), phrase@, handled),
            final(self).wf(),
    {
        if !self.search_mode {
            return false;
        }
        self.phrase = phrase;
        self.clamp_cursor();
        true
    }

    /// Commits the filtered view, as `spec_search_apply_rel` describes.
    pub fn search_apply(&mut self) -> (handled: bool)
        requires
            old(self).wf(),
        ensures
            spec_search_apply_rel(*old(self), *final(self), handled),
            final(self).wf(),
    {
        if !self.search_mode || self.phrase.as_str().is_empty() {
            return false;
        }
        self.search_mode = false;
        true
    }
}

/// One navigation column: a non-empty stack of tabs and the index of
/// the active one.
#[derive(Debug)]
pub struct PanelState {
    pub side: PanelSide,
    pub tabs: Vec<TabState>,
    pub current_tab: usize,
}

/// The active tab cycled forward, wrapping at the end.
pub open spec fn spec_next_tab_rel(pre: PanelState, post: PanelState) -> bool {
    &&& post == (PanelState { current_tab: post.current_tab, ..pre })
    &&& post.current_tab == (if pre.current_tab + 1 < pre.tabs@.len() {
        (pre.current_tab + 1) as usize
    } else {
        0usize
    })
}

/// The active tab cycled backward, wrapping at the start.
pub open spec fn spec_prev_tab_rel(pre: PanelState, post: PanelState) -> bool {
    &&& post == (PanelState { current_tab: post.current_tab, ..pre })
    &&& post.current_tab == (if pre.current_tab > 0 {
        (pre.current_tab - 1) as usize
    } else {
        (pre.tabs@.len() - 1) as usize
    })
}

/// `post` is `pre` with at most the tab at `i` replaced; stack shape,
/// active index and side are untouched.
pub open spec fn spec_panel_site(pre: PanelState, post: PanelState, i: int) -> bool {
    &&& post == (PanelState { tabs: post.tabs, ..pre })
    &&& post.tabs@ == pre.tabs@.update(i, post.tabs@[i])
}

impl PanelState {
    /// The panel invariant: at least one tab, the active index in
    /// range, every tab well-formed.
    pub open spec fn wf(&self) -> bool {
        &&& self.tabs@.len() > 0
        &&& self.current_tab < self.tabs@.len()
        &&& forall|i: int| 0 <= i < self.tabs@.len() ==> #[trigger] self.tabs@[i].wf()
    }

    /// A panel with a single fresh tab.
    pub fn new(side: PanelSide, name: String, path: String) -> (r: Self)
        ensures
            r.side == side,
            r.tabs@.len() == 1,
            r.current_tab == 0,
            r.tabs@[0].name == name,
            r.tabs@[0].path == path,
            r.tabs@[0].items@.len() == 0,
            r.tabs@[0].selected@.len() == 0,
            r.tabs@[0].search_mode == false,
            r.tabs@[0].phrase@.len() == 0,
            r.tabs@[0].cursor is None,
            r.wf(),
    {
        let mut tabs: Vec<TabState> = Vec::new();
        tabs.push(TabState::new(name, path));
        PanelState { side, tabs, current_tab: 0 }
    }

    /// Cycles to the next tab, wrapping at the end.
    pub fn next_tab(&mut self)
        requires
            old(self).wf(),
        ensures
            spec_next_tab_rel(*old(self), *final(self)),
            final(self).wf(),
    {
        let len = self.tabs.len();
        if self.current_tab < len - 1 {
            self.current_tab = self.current_tab + 1;
        } else {
            self.current_tab = 0;
        }
    }

    /// Cycles to the previous tab, wrapping at the start.
    pub fn prev_tab(&mut self)
        requires
            old(self).wf(),
        ensures
            spec_prev_tab_rel(*old(self), *final(self)),
            final(self).wf(),
    {
        if self.current_tab > 0 {
            self.current_tab = self.current_tab - 1;
        } else {
            self.current_tab = self.tabs.len() - 1;
        }
    }

    /// Advances the cursor of the active tab.
    pub fn cur_select_next(&mut self)
        requires
            old(self).wf(),
        ensures
            final(self).wf(),
            spec_panel_site(*old(self), *final(self), old(self).current_tab as int),
            spec_select_next_rel(
                old(self).tabs@[old(self).current_tab as int],
                final(self).tabs@[old(self).current_tab as int],
            ),
    {
        let i = self.current_tab;
        let mut t = self.tabs.remove(i);
        t.select_next();
        self.tabs.insert(i, t);
        proof {
            assert(self.tabs@ =~= old(self).tabs@.update(i as int, self.tabs@[i as int]));
        }
    }

    /// Moves the cursor of the active tab back.
    pub fn cur_select_prev(&mut self)
        requires
            old(self).wf(),
        ensures
            final(self).wf(),
            spec_panel_site(*old(self), *final(self), old(self).current_tab as int),
            spec_select_prev_rel(
                old(self).tabs@[old(self).current_tab as int],
                final(self).tabs@[old(self).current_tab as int],
            ),
    {
        let i = self.current_tab;
        let mut t = self.tabs.remove(i);
        t.select_prev();
        self.tabs.insert(i, t);
        proof {
            assert(self.tabs@ =~= old(self).tabs@.update(i as int, self.tabs@[i as int]));
        }
    }

    /// Empties the selection of the active tab.
    pub fn cur_clear_selection(&mut self)
        requires
            old(self).wf(),
        ensures
            final(self).wf(),
            spec_panel_site(*old(self), *final(self), old(self).current_tab as int),
            spec_clear_selection_rel(
                old(self).tabs@[old(self).current_tab as int],
                final(self).tabs@[old(self).current_tab as int],
            ),
    {
        let i = self.current_tab;
        let mut t = self.tabs.remove(i);
        t.clear_selection();
        self.tabs.insert(i, t);
        proof {
            assert(self.tabs@ =~= old(self).tabs@.update(i as int, self.tabs@[i as int]));
        }
    }

    /// Enters search on the tab at `tab`; out-of-range indices are
    /// defensive no-ops.
    pub fn tab_search_start(&mut self, tab: usize) -> (handled: bool)
        requires
            old(self).wf(),
        ensures
            final(self).wf(),
            if tab < old(self).tabs@.len() {
                &&& spec_panel_site(*old(self), *final(self), tab as int)
                &&& spec_search_start_rel(
                    old(self).tabs@[tab as int],
                    final(self).tabs@[tab as int],
                    handled,
                )
            } else {
                !handled && *final(self) == *old(self)
            },
    {
        if tab >= self.tabs.len() {
            return false;
        }
        let mut t = self.tabs.remove(tab);
        let handled = t.search_start();
        self.tabs.insert(tab, t);
        proof {
            assert(self.tabs@ =~= old(self).tabs@.update(tab as int, self.tabs@[tab as int]));
        }
        handled
    }

    /// Stops search on the tab at `tab`; out-of-range indices are
    /// defensive no-ops.
    pub fn tab_search_stop(&mut self, tab: usize) -> (handled: bool)
        requires
            old(self).wf(),
        ensures
            final(self).wf(),
            if tab < old(self).tabs@.len() {
                &&& spec_panel_site(*old(self), *final(self), tab as int)
                &&& spec_search_stop_rel(
                    old(self).tabs@[tab as int],
                    final(self).tabs@[tab as int],
                    handled,
                )
            } else {
                !handled && *final(self) == *old(self)
            },
    {
        if tab >= self.tabs.len() {
            return false;
        }
        let mut t = self.tabs.remove(tab);
        let handled = t.search_stop();
        self.tabs.insert(tab, t);
        proof {
            assert(self.tabs@ =~= old(self).tabs@.update(tab as int, self.tabs@[tab as int]));
        }
        handled
    }

    /// Replaces the phrase of the tab at `tab`; out-of-range indices
    /// are defensive no-ops.
    pub fn tab_search_input(&mut self, tab: usize, phrase: String) -> (handled: bool)
        requires
            old(self).wf(),
        ensures
            final(self).wf(),
            if tab < old(self).tabs@.len() {
                &&& spec_panel_site(*old(self), *final(self), tab as int)
                &&& spec_search_input_rel(
                    old(self).tabs@[tab as int],
                    final(self).tabs@[tab as int],
                    phrase@,
                    handled,
                )
            } else {
                !handled && *final(self) == *old(self)
            },
    {
        if tab >= self.tabs.len() {
            return false;
        }
        let mut t = self.tabs.remove(tab);
        let handled = t.search_input(phrase);
        self.tabs.insert(tab, t);
        proof {
            assert(self.tabs@ =~= old(self).tabs@.update(tab as int, self.tabs@[tab as int]));
        }
        handled
    }

    /// Commits the search of the tab at `tab`; out-of-range indices
    /// are defensive no-ops.
    pub fn tab_search_apply(&mut self, tab: usize) -> (handled: bool)
        requires
            old(self).wf(),
        ensures
            final(self).wf(),
            if tab < old(self).tabs@.len() {
                &&& spec_panel_site(*old(self), *final(self), tab as int)
                &&& spec_search_apply_rel(
                    old(self).tabs@[tab as int],
                    final(self).tabs@[tab as int],
                    handled,
                )
            } else {
                !handled && *final(self) == *old(self)
            },
    {
        if tab >= self.tabs.len() {
            return false;
        }
        let mut t = self.tabs.remove(tab);
        let handled = t.search_apply();
        self.tabs.insert(tab, t);
        proof {
            assert(self.tabs@ =~= old(self).tabs@.update(tab as int, self.tabs@[tab as int]));
        }
        handled
    }
}

/// The full application state, owned exclusively by the store.
#[derive(Debug)]
pub struct AppState {
    pub left_panel: PanelState,
    pub right_panel: PanelState,
    pub focused_panel: PanelSide,
    pub modal: Option<ModalType>,
    pub config: Config,
}

impl AppState {
    pub open spec fn wf(&self) -> bool {
        &&& self.left_panel.wf()
        &&& self.right_panel.wf()
        &&& self.left_panel.side == PanelSide::Left
        &&& self.right_panel.side == PanelSide::Right
    }

    /// The panel on `side`.
    pub open spec fn spec_panel(&self, side: PanelSide) -> PanelState {
        match side {
            PanelSide::Left => self.left_panel,
            PanelSide::Right => self.right_panel,
        }
    }
}

} // verus!
