//! Path arithmetic over UTF-8 text, specified exactly.
//!
//! Sandbox paths use `/` as the separator. Joining follows the usual
//! platform rule: an absolute right-hand side replaces the base, and a
//! separator is inserted only when the base does not already end in one.

use vstd::prelude::*;

verus! {

/// The result of joining `rel` onto `base`: `rel` if it is absolute,
/// otherwise `base` and `rel` with exactly one separator between them.
pub open spec fn spec_join(base: Seq<char>, rel: Seq<char>) -> Seq<char> {
    if rel.len() > 0 && rel[0] == '/' {
        rel
    } else if base.len() == 0 {
        rel
    } else if base[base.len() - 1] == '/' {
        base + rel
    } else {
        base + seq!['/'] + rel
    }
}

/// Joins `rel` onto `base` as [`spec_join`] describes.
pub fn join_str(base: &str, rel: &str) -> (r: String)
    ensures
        r@ == spec_join(base@, rel@),
{
    let rel_len: usize = rel.unicode_len();
    let base_len: usize = base.unicode_len();
    if rel_len > 0 && rel.get_char(0) == '/' {
        rel.to_owned()
    } else if base_len == 0 {
        rel.to_owned()
    } else if base.get_char(base_len - 1) == '/' {
        let mut r = base.to_owned();
        r.append(rel);
        r
    } else {
        let mut r = base.to_owned();
        r.append("/");
        r.append(rel);
        proof {
            reveal_strlit("/");
            assert(r@ =~= spec_join(base@, rel@));
        }
        r
    }
}

/// The index of the last separator in `s`, or `None` when `s` holds
/// no separator.
pub open spec fn spec_last_slash(s: Seq<char>) -> Option<int>
    decreases s.len(),
{
    if s.len() == 0 {
        None
    } else if s[s.len() - 1] == '/' {
        Some(s.len() - 1)
    } else {
        spec_last_slash(s.take(s.len() - 1))
    }
}

/// Everything before the last separator: the directory that holds the
/// path's final component. Empty when `s` has no separator; the bare
/// separator when the only one leads the path.
pub open spec fn spec_parent(s: Seq<char>) -> Seq<char> {
    match spec_last_slash(s) {
        None => Seq::empty(),
        Some(i) => if i == 0 {
            seq!['/']
        } else {
            s.take(i)
        },
    }
}

/// Everything after the last separator: the path's final component.
/// The whole of `s` when it has no separator.
pub open spec fn spec_basename(s: Seq<char>) -> Seq<char> {
    match spec_last_slash(s) {
        None => s,
        Some(i) => s.skip(i + 1),
    }
}

/// Finds the last separator of `s`, as [`spec_last_slash`] describes.
pub fn last_slash(s: &str) -> (r: Option<usize>)
    ensures
        match r {
            Some(i) => spec_last_slash(s@) == Some(i as int) && i < s@.len() && s@[i as int]
                == '/',
            None => spec_last_slash(s@) is None,
        },
{
    let len: usize = s.unicode_len();
    let mut i: usize = len;
    proof {
        assert(s@.take(len as int) =~= s@);
    }
    while 0 < i
        invariant
            i <= len,
            len == s@.len(),
            spec_last_slash(s@) == spec_last_slash(s@.take(i as int)),
            forall|j: int| i <= j < s@.len() ==> s@[j] != '/',
        decreases i,
    {
        let c = s.get_char(i - 1);
        if c == '/' {
            proof {
                assert(s@.take(i as int).len() == i);
                assert(s@.take(i as int)[i - 1] == s@[i - 1]);
            }
            return Some(i - 1);
        }
        proof {
            assert(s@.take(i as int)[i - 1] == s@[i - 1]);
            assert(s@.take(i as int).take(i - 1) =~= s@.take(i - 1));
        }
        i = i - 1;
    }
    proof {
        assert(s@.take(0).len() == 0);
    }
    None
}

/// The directory holding the final component of `s`, as
/// [`spec_parent`] describes.
pub fn parent_of(s: &str) -> (r: String)
    ensures
        r@ == spec_parent(s@),
{
    match last_slash(s) {
        None => {
            let r = String::new();
            proof {
                assert(r@ =~= spec_parent(s@));
            }
            r
        },
        Some(i) => {
            if i == 0 {
                let r: String = "/".to_owned();
                proof {
                    reveal_strlit("/");
                    assert(r@ =~= spec_parent(s@));
                }
                r
            } else {
                let r = s.substring_char(0, i).to_owned();
                proof {
                    assert(r@ =~= spec_parent(s@));
                }
                r
            }
        },
    }
}

/// The final component of `s`, as [`spec_basename`] describes.
pub fn basename_of(s: &str) -> (r: String)
    ensures
        r@ == spec_basename(s@),
{
    match last_slash(s) {
        None => s.to_owned(),
        Some(i) => {
            let len: usize = s.unicode_len();
            let r = s.substring_char(i + 1, len).to_owned();
            proof {
                assert(r@ =~= spec_basename(s@));
            }
            r
        },
    }
}

} // verus!
