//! Path arithmetic on plain strings: joining a directory path with an
//! entry name, taking the parent directory, and expanding a leading
//! tilde to the home directory.

use vstd::prelude::*;
use vstd::string::StrSliceExecFns;
use vstd::string::StringExecFns;

verus! {

/// `base` extended with the entry `name`, with exactly one separator
/// between them; an empty base yields `name` alone.
pub open spec fn spec_join(base: Seq<char>, name: Seq<char>) -> Seq<char> {
    if base.len() == 0 {
        name
    } else if base[base.len() - 1] == '/' {
        base + name
    } else {
        base + seq!['/'] + name
    }
}

/// Joins a directory path and an entry name.
pub fn join_path(base: &String, name: &String) -> (r: String)
    ensures
        r@ == spec_join(base@, name@),
{
    let blen = base.as_str().unicode_len();
    if blen == 0 {
        return name.clone();
    }
    let mut r = base.clone();
    if base.as_str().get_char(blen - 1) != '/' {
        r.append("/");
        proof {
            reveal_strlit("/");
            assert(r@ =~= base@ + seq!['/']);
        }
    }
    r.append(name.as_str());
    proof {
        if base@[base@.len() - 1] == '/' {
            assert(r@ =~= base@ + name@);
        } else {
            assert(r@ =~= base@ + seq!['/'] + name@);
        }
    }
    r
}

/// The position just after the last separator, or 0 when there is none.
pub open spec fn spec_after_last_slash(path: Seq<char>) -> int
    decreases path.len(),
{
    if path.len() == 0 {
        0
    } else if path[path.len() - 1] == '/' {
        path.len() as int
    } else {
        spec_after_last_slash(path.drop_last())
    }
}

/// The path with trailing separators dropped; a lone separator (the
/// root) stays.
pub open spec fn spec_trim_slashes(path: Seq<char>) -> Seq<char>
    decreases path.len(),
{
    if path.len() > 1 && path[path.len() - 1] == '/' {
        spec_trim_slashes(path.drop_last())
    } else {
        path
    }
}

/// The parent directory of a path, trailing separators ignored: none
/// for the root or for a path without separator; the root for a
/// top-level entry; otherwise the prefix before the last separator.
pub open spec fn spec_parent(path: Seq<char>) -> Option<Seq<char>> {
    let p = spec_trim_slashes(path);
    if p == seq!['/'] {
        None
    } else if spec_after_last_slash(p) == 0 {
        None
    } else if spec_after_last_slash(p) == 1 {
        Some(seq!['/'])
    } else {
        Some(p.subrange(0, spec_after_last_slash(p) - 1))
    }
}

/// The parent directory of `path`, if it has one.
pub fn parent_of(path: &String) -> (r: Option<String>)
    ensures
        match r {
            Some(p) => Some(p@) == spec_parent(path@),
            None => spec_parent(path@) is None,
        },
{
    let len = path.as_str().unicode_len();
    let mut tlen: usize = len;
    proof {
        assert(path@.take(len as int) =~= path@);
    }
    while tlen > 1 && path.as_str().get_char(tlen - 1) == '/'
        invariant
            0 <= tlen <= len,
            len == path@.len(),
            spec_trim_slashes(path@) == spec_trim_slashes(path@.take(tlen as int)),
        decreases tlen,
    {
        proof {
            assert(path@.take(tlen as int).last() == path@[tlen - 1]);
            assert(path@.take(tlen as int).drop_last() =~= path@.take(tlen - 1));
        }
        tlen -= 1;
    }
    let ghost p = path@.take(tlen as int);
    proof {
        if tlen > 0 {
            assert(p.last() == path@[tlen - 1]);
        }
        assert(spec_trim_slashes(p) == p);
        assert(spec_trim_slashes(path@) == p);
    }
    let mut i: usize = tlen;
    while i > 0 && path.as_str().get_char(i - 1) != '/'
        invariant
            0 <= i <= tlen,
            tlen <= len,
            len == path@.len(),
            p == path@.take(tlen as int),
            spec_after_last_slash(p) == spec_after_last_slash(path@.take(i as int)),
        decreases i,
    {
        proof {
            assert(path@.take(i as int).last() == path@[i - 1]);
            assert(path@.take(i as int).drop_last() =~= path@.take(i - 1));
        }
        i -= 1;
    }
    proof {
        if i == 0 {
            assert(path@.take(0) =~= Seq::<char>::empty());
            assert(spec_after_last_slash(p) == 0);
        } else {
            assert(path@.take(i as int).last() == path@[i - 1]);
            assert(spec_after_last_slash(path@.take(i as int)) == i);
        }
        assert(spec_after_last_slash(seq!['/']) == 1);
    }
    if i == 0 {
        proof {
            assert(p != seq!['/']);
        }
        return None;
    }
    if tlen == 1 {
        // the trimmed path is the root separator alone
        proof {
            assert(p =~= seq!['/']);
        }
        return None;
    }
    if i == 1 {
        let root = path.as_str().substring_char(0, 1);
        proof {
            assert(root@ =~= seq!['/']);
            assert(p != seq!['/']);
        }
        return Some(root.to_owned());
    }
    let parent = path.as_str().substring_char(0, i - 1);
    proof {
        assert(p != seq!['/']);
        assert(parent@ =~= p.subrange(0, i - 1));
    }
    Some(parent.to_owned())
}

/// Relies on dirs::home_dir: the home directory of the current user, if
/// the platform reports one that is valid Unicode.
#[verifier::external_body]
pub fn home_dir_string() -> (r: Option<String>) {
    dirs::home_dir().and_then(|p| p.to_str().map(|s| s.to_string()))
}

/// Whether the path begins with a tilde component: `~` alone or `~/...`.
pub open spec fn spec_has_tilde(path: Seq<char>) -> bool {
    path.len() > 0 && path[0] == '~' && (path.len() == 1 || path[1] == '/')
}

/// The tilde expansion of `path` against a known home directory.
pub open spec fn spec_expand_tilde(path: Seq<char>, home: Option<Seq<char>>) -> Option<
    Seq<char>,
> {
    if !spec_has_tilde(path) {
        Some(path)
    } else if path.len() == 1 {
        home
    } else {
        match home {
            None => None,
            Some(h) => if h == seq!['/'] {
                Some(path.skip(1))
            } else {
                Some(h + path.skip(1))
            },
        }
    }
}

/// The home directory view carried by an optional string.
pub open spec fn spec_opt_view(home: Option<&String>) -> Option<Seq<char>> {
    match home {
        Some(h) => Some(h@),
        None => None,
    }
}

/// Expands a leading tilde component against `home`.
pub fn expand_tilde_with_home(path: &String, home: Option<&String>) -> (r: Option<String>)
    ensures
        match r {
            Some(p) => Some(p@) == spec_expand_tilde(path@, spec_opt_view(home)),
            None => spec_expand_tilde(path@, spec_opt_view(home)) is None,
        },
{
    let len = path.as_str().unicode_len();
    let has_tilde = len > 0 && path.as_str().get_char(0) == '~' && (len == 1
        || path.as_str().get_char(1) == '/');
    if !has_tilde {
        return Some(path.clone());
    }
    if len == 1 {
        return match home {
            Some(h) => Some(h.clone()),
            None => None,
        };
    }
    match home {
        None => None,
        Some(h) => {
            let rest = path.as_str().substring_char(1, len);
            proof {
                assert(rest@ =~= path@.skip(1));
            }
            let hlen = h.as_str().unicode_len();
            if hlen == 1 && h.as_str().get_char(0) == '/' {
                proof {
                    assert(h@ =~= seq!['/']);
                }
                Some(rest.to_owned())
            } else {
                proof {
                    assert(h@ != seq!['/']);
                }
                Some(h.clone().concat(rest))
            }
        },
    }
}

/// Expands a leading tilde component against the home directory the
/// platform reports.  A path without a tilde component comes back
/// unchanged.
pub fn expand_if_contains_tilde(path: &String) -> (r: Option<String>)
    ensures
        !spec_has_tilde(path@) ==> r is Some && r.unwrap()@ == path@,
        exists|h: Option<Seq<char>>|
            match r {
                Some(p) => Some(p@) == #[trigger] spec_expand_tilde(path@, h),
                None => spec_expand_tilde(path@, h) is None,
            },
{
    if !(path.as_str().unicode_len() > 0 && path.as_str().get_char(0) == '~') {
        let r = Some(path.clone());
        proof {
            assert(spec_expand_tilde(path@, None) == Some(path@));
        }
        return r;
    }
    let home = home_dir_string();
    let r = expand_tilde_with_home(path, home.as_ref());
    proof {
        let w: Option<Seq<char>> = match home {
            Some(ref h) => Some(h@),
            None => None,
        };
        assert(match r {
            Some(p) => Some(p@) == spec_expand_tilde(path@, w),
            None => spec_expand_tilde(path@, w) is None,
        });
    }
    r
}

} // verus!
