//! The listing sort policy: three orthogonal axes (name, modification
//! date, size), each ascending, descending or unordered, plus an
//! optional "directories first" grouping.
//!
//! With grouping on, the first ordered axis in the fixed priority
//! name, size, date decides the order within each group and the rest
//! are ignored.  Without grouping, the axes are applied as independent
//! full-list sorts in the order date, name, size, so the last ordered
//! axis wins; this sequential-overwrite behaviour is deliberate.

use vstd::prelude::*;

use crate::config::{SortEnum, TabConfig};
use crate::file_system::FileSystemItem;
use crate::textops::{lemma_lex_le_total, lemma_lex_le_trans, lex_le, str_le};

verus! {

/// The key one sort pass compares by.
#[derive(Clone, Copy, Debug, PartialEq, Eq, Structural)]
pub enum SortKey {
    Name,
    Date,
    Attr,
}

/// Comparison of two items on one key, in one direction.
pub open spec fn key_le(a: FileSystemItem, b: FileSystemItem, key: SortKey, asc: bool) -> bool {
    match key {
        SortKey::Name => if asc {
            lex_le(a.spec_name(), b.spec_name())
        } else {
            lex_le(b.spec_name(), a.spec_name())
        },
        SortKey::Date => if asc {
            a.spec_modified() <= b.spec_modified()
        } else {
            b.spec_modified() <= a.spec_modified()
        },
        SortKey::Attr => if asc {
            a.spec_size() <= b.spec_size()
        } else {
            b.spec_size() <= a.spec_size()
        },
    }
}

/// Comparison of two items on one key, with non-files preceding files
/// when `group` is set.
pub open spec fn item_le(
    a: FileSystemItem,
    b: FileSystemItem,
    key: SortKey,
    asc: bool,
    group: bool,
) -> bool {
    if group {
        (!a.spec_is_file() && b.spec_is_file()) || (a.spec_is_file() == b.spec_is_file()
            && key_le(a, b, key, asc))
    } else {
        key_le(a, b, key, asc)
    }
}

/// Any two items are comparable.
pub proof fn lemma_item_le_total(
    a: FileSystemItem,
    b: FileSystemItem,
    key: SortKey,
    asc: bool,
    group: bool,
)
    ensures
        item_le(a, b, key, asc, group) || item_le(b, a, key, asc, group),
{
    match key {
        SortKey::Name => {
            lemma_lex_le_total(a.spec_name(), b.spec_name());
        },
        SortKey::Date => {
        },
        SortKey::Attr => {
        },
    }
}

/// The comparison is transitive.
pub proof fn lemma_item_le_trans(
    a: FileSystemItem,
    b: FileSystemItem,
    c: FileSystemItem,
    key: SortKey,
    asc: bool,
    group: bool,
)
    requires
        item_le(a, b, key, asc, group),
        item_le(b, c, key, asc, group),
    ensures
        item_le(a, c, key, asc, group),
{
    match key {
        SortKey::Name => {
            if key_le(a, b, key, asc) && key_le(b, c, key, asc) {
                if asc {
                    lemma_lex_le_trans(a.spec_name(), b.spec_name(), c.spec_name());
                } else {
                    lemma_lex_le_trans(c.spec_name(), b.spec_name(), a.spec_name());
                }
            }
        },
        SortKey::Date => {
        },
        SortKey::Attr => {
        },
    }
}

/// Whether the sequence is ordered by one pass's comparison.
pub open spec fn spec_sorted_by(
    s: Seq<FileSystemItem>,
    key: SortKey,
    asc: bool,
    group: bool,
) -> bool {
    forall|i: int, j: int|
        0 <= i < j < s.len() ==> #[trigger] item_le(s[i], s[j], key, asc, group)
}

/// The position one pass inserts `x` at: just after the leading run
/// of items that compare at most `x`.  Equal items stay ahead of `x`,
/// which keeps the listing order as the implicit secondary key.
pub open spec fn spec_insert_pos(
    s: Seq<FileSystemItem>,
    x: FileSystemItem,
    key: SortKey,
    asc: bool,
    group: bool,
) -> int
    decreases s.len(),
{
    if s.len() == 0 {
        0
    } else if !item_le(s[0], x, key, asc, group) {
        0
    } else {
        1 + spec_insert_pos(s.drop_first(), x, key, asc, group)
    }
}

/// One stable insertion.
pub open spec fn spec_sort_insert(
    s: Seq<FileSystemItem>,
    x: FileSystemItem,
    key: SortKey,
    asc: bool,
    group: bool,
) -> Seq<FileSystemItem> {
    s.insert(spec_insert_pos(s, x, key, asc, group), x)
}

/// The stable sort one pass computes, item by item in listing order.
pub open spec fn spec_insertion_sort(
    s: Seq<FileSystemItem>,
    key: SortKey,
    asc: bool,
    group: bool,
) -> Seq<FileSystemItem>
    decreases s.len(),
{
    if s.len() == 0 {
        Seq::<FileSystemItem>::empty()
    } else {
        spec_sort_insert(spec_insertion_sort(s.drop_last(), key, asc, group), s.last(), key, asc, group)
    }
}

/// The insertion position is where the leading run of at-most-`x`
/// items ends.
proof fn lemma_insert_pos_of(
    s: Seq<FileSystemItem>,
    x: FileSystemItem,
    key: SortKey,
    asc: bool,
    group: bool,
    p: int,
)
    requires
        0 <= p <= s.len(),
        forall|k: int| 0 <= k < p ==> item_le(#[trigger] s[k], x, key, asc, group),
        p < s.len() ==> !item_le(s[p], x, key, asc, group),
    ensures
        spec_insert_pos(s, x, key, asc, group) == p,
    decreases s.len(),
{
    if s.len() > 0 && p > 0 {
        assert(item_le(s[0], x, key, asc, group));
        lemma_insert_pos_of(s.drop_first(), x, key, asc, group, p - 1);
    }
}

/// One comparison of two items, as one sort pass uses it.
fn item_le_exec(
    a: &FileSystemItem,
    b: &FileSystemItem,
    key: SortKey,
    asc: bool,
    group: bool,
) -> (r: bool)
    ensures
        r == item_le(*a, *b, key, asc, group),
{
    if group {
        let af = a.is_file();
        let bf = b.is_file();
        if af != bf {
            return !af;
        }
    }
    match key {
        SortKey::Name => {
            let an = a.get_name();
            let bn = b.get_name();
            if asc {
                str_le(an.as_str(), bn.as_str())
            } else {
                str_le(bn.as_str(), an.as_str())
            }
        },
        SortKey::Date => {
            if asc {
                a.get_modified() <= b.get_modified()
            } else {
                b.get_modified() <= a.get_modified()
            }
        },
        SortKey::Attr => {
            if asc {
                a.get_size() <= b.get_size()
            } else {
                b.get_size() <= a.get_size()
            }
        },
    }
}

/// One full sort pass over the listing: the stable sort by the pass's
/// comparison.  The items are preserved, the result is ordered, and
/// ties keep their listing order.
pub fn sort_pass(items: &mut Vec<FileSystemItem>, key: SortKey, asc: bool, group: bool)
    ensures
        final(items)@ == spec_insertion_sort(old(items)@, key, asc, group),
        final(items)@.to_multiset() == old(items)@.to_multiset(),
        final(items)@.len() == old(items)@.len(),
        spec_sorted_by(final(items)@, key, asc, group),
{
    let len = items.len();
    let mut out: Vec<FileSystemItem> = Vec::new();
    let mut idx: usize = 0;
    proof {
        assert(items@.take(0) =~= Seq::<FileSystemItem>::empty());
        assert(Seq::<FileSystemItem>::empty().to_multiset() =~= out@.to_multiset());
    }
    while idx < len
        invariant
            0 <= idx <= len,
            len == items@.len(),
            out@.len() == idx,
            out@.to_multiset() == items@.take(idx as int).to_multiset(),
            out@ == spec_insertion_sort(items@.take(idx as int), key, asc, group),
            spec_sorted_by(out@, key, asc, group),
        decreases len - idx,
    {
        let x = (&items[idx]).clone();
        let olen = out.len();
        let mut pos: usize = 0;
        while pos < olen && item_le_exec(&out[pos], &x, key, asc, group)
            invariant
                0 <= pos <= olen,
                olen == out@.len(),
                forall|k: int| 0 <= k < pos ==> item_le(#[trigger] out@[k], x, key, asc, group),
            decreases olen - pos,
        {
            pos += 1;
        }
        proof {
            if pos < out@.len() {
                assert forall|k: int| pos <= k < out@.len() implies item_le(
                    x,
                    #[trigger] out@[k],
                    key,
                    asc,
                    group,
                ) by {
                    lemma_item_le_total(out@[pos as int], x, key, asc, group);
                    if k > pos {
                        lemma_item_le_trans(x, out@[pos as int], out@[k], key, asc, group);
                    }
                }
            }
        }
        let ghost prev_out = out@;
        proof {
            lemma_insert_pos_of(out@, x, key, asc, group, pos as int);
        }
        out.insert(pos, x);
        proof {
            assert(out@ == prev_out.insert(pos as int, x));
            vstd::seq_lib::to_multiset_insert(prev_out, pos as int, x);
            assert(items@.take(idx as int + 1) =~= items@.take(idx as int).push(
                items@[idx as int],
            ));
            vstd::seq_lib::to_multiset_build(items@.take(idx as int), items@[idx as int]);
            assert(items@.take(idx as int + 1).drop_last() =~= items@.take(idx as int));
            assert(items@.take(idx as int + 1).last() == items@[idx as int]);
            assert(spec_insertion_sort(items@.take(idx as int + 1), key, asc, group)
                == spec_sort_insert(prev_out, x, key, asc, group));
            assert(spec_sorted_by(out@, key, asc, group)) by {
                assert forall|i: int, j: int| 0 <= i < j < out@.len() implies #[trigger] item_le(
                    out@[i],
                    out@[j],
                    key,
                    asc,
                    group,
                ) by {
                    if i < pos && j == pos {
                        assert(out@[i] == prev_out[i]);
                    } else if i == pos && j > pos {
                        assert(out@[j] == prev_out[j - 1]);
                    } else if i < pos && j > pos {
                        assert(out@[i] == prev_out[i]);
                        assert(out@[j] == prev_out[j - 1]);
                    } else if i > pos && j > pos {
                        assert(out@[i] == prev_out[i - 1]);
                        assert(out@[j] == prev_out[j - 1]);
                    }
                }
            }
        }
        idx += 1;
    }
    proof {
        assert(items@.take(len as int) =~= items@);
    }
    *items = out;
}

/// The single axis that decides the final order of a listing sorted
/// under `cfg`, if any does: the key, its direction, and whether the
/// listing is grouped directories-first.
pub open spec fn spec_effective_axis(cfg: TabConfig) -> Option<(SortKey, bool, bool)> {
    if cfg.directory_first {
        if cfg.sort_by_name != SortEnum::NONE {
            Some((SortKey::Name, cfg.sort_by_name == SortEnum::ASC, true))
        } else if cfg.sort_by_attr != SortEnum::NONE {
            Some((SortKey::Attr, cfg.sort_by_attr == SortEnum::ASC, true))
        } else if cfg.sort_by_date != SortEnum::NONE {
            Some((SortKey::Date, cfg.sort_by_date == SortEnum::ASC, true))
        } else {
            None
        }
    } else {
        if cfg.sort_by_attr != SortEnum::NONE {
            Some((SortKey::Attr, cfg.sort_by_attr == SortEnum::ASC, false))
        } else if cfg.sort_by_name != SortEnum::NONE {
            Some((SortKey::Name, cfg.sort_by_name == SortEnum::ASC, false))
        } else if cfg.sort_by_date != SortEnum::NONE {
            Some((SortKey::Date, cfg.sort_by_date == SortEnum::ASC, false))
        } else {
            None
        }
    }
}

/// The listing a configuration produces from a fresh snapshot: the
/// grouped case applies the first ordered axis once; the ungrouped
/// case applies the stable sorts date, name, size in sequence.
pub open spec fn spec_sort_listing(s: Seq<FileSystemItem>, cfg: TabConfig) -> Seq<
    FileSystemItem,
> {
    if cfg.directory_first {
        if cfg.sort_by_name != SortEnum::NONE {
            spec_insertion_sort(s, SortKey::Name, cfg.sort_by_name == SortEnum::ASC, true)
        } else if cfg.sort_by_attr != SortEnum::NONE {
            spec_insertion_sort(s, SortKey::Attr, cfg.sort_by_attr == SortEnum::ASC, true)
        } else if cfg.sort_by_date != SortEnum::NONE {
            spec_insertion_sort(s, SortKey::Date, cfg.sort_by_date == SortEnum::ASC, true)
        } else {
            s
        }
    } else {
        let by_date = if cfg.sort_by_date != SortEnum::NONE {
            spec_insertion_sort(s, SortKey::Date, cfg.sort_by_date == SortEnum::ASC, false)
        } else {
            s
        };
        let by_name = if cfg.sort_by_name != SortEnum::NONE {
            spec_insertion_sort(by_date, SortKey::Name, cfg.sort_by_name == SortEnum::ASC, false)
        } else {
            by_date
        };
        if cfg.sort_by_attr != SortEnum::NONE {
            spec_insertion_sort(by_name, SortKey::Attr, cfg.sort_by_attr == SortEnum::ASC, false)
        } else {
            by_name
        }
    }
}

/// Sorts a fresh listing under the configured policy: exactly the
/// listing `spec_sort_listing` gives.  The items are preserved; when
/// any axis is ordered, the result is ordered by the effective axis.
pub fn sort_items(items: &mut Vec<FileSystemItem>, cfg: &TabConfig)
    ensures
        final(items)@ == spec_sort_listing(old(items)@, *cfg),
        final(items)@.to_multiset() == old(items)@.to_multiset(),
        final(items)@.len() == old(items)@.len(),
        match spec_effective_axis(*cfg) {
            Some(axis) => spec_sorted_by(final(items)@, axis.0, axis.1, axis.2),
            None => final(items)@ == old(items)@,
        },
{
    if cfg.directory_first {
        match cfg.sort_by_name {
            SortEnum::ASC => {
                sort_pass(items, SortKey::Name, true, true);
                return ;
            },
            SortEnum::DESC => {
                sort_pass(items, SortKey::Name, false, true);
                return ;
            },
            SortEnum::NONE => {},
        }
        match cfg.sort_by_attr {
            SortEnum::ASC => {
                sort_pass(items, SortKey::Attr, true, true);
                return ;
            },
            SortEnum::DESC => {
                sort_pass(items, SortKey::Attr, false, true);
                return ;
            },
            SortEnum::NONE => {},
        }
        match cfg.sort_by_date {
            SortEnum::ASC => {
                sort_pass(items, SortKey::Date, true, true);
                return ;
            },
            SortEnum::DESC => {
                sort_pass(items, SortKey::Date, false, true);
                return ;
            },
            SortEnum::NONE => {},
        }
    } else {
        match cfg.sort_by_date {
            SortEnum::ASC => sort_pass(items, SortKey::Date, true, false),
            SortEnum::DESC => sort_pass(items, SortKey::Date, false, false),
            SortEnum::NONE => {},
        }
        match cfg.sort_by_name {
            SortEnum::ASC => sort_pass(items, SortKey::Name, true, false),
            SortEnum::DESC => sort_pass(items, SortKey::Name, false, false),
            SortEnum::NONE => {},
        }
        match cfg.sort_by_attr {
            SortEnum::ASC => sort_pass(items, SortKey::Attr, true, false),
            SortEnum::DESC => sort_pass(items, SortKey::Attr, false, false),
            SortEnum::NONE => {},
        }
    }
}

} // verus!
