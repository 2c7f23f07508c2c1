//! Bounded, non-overlapping pattern replacement over text, specified
//! exactly.
//!
//! [`spec_replacen`] says what replacing the first `count` occurrences
//! of a pattern yields; [`replacen_str`] computes it. An empty pattern
//! occurs before every character and once more at the end of the text.

use vstd::prelude::*;

verus! {

/// `pat` occurs in `s` at index `i`.
pub open spec fn match_at(s: Seq<char>, pat: Seq<char>, i: int) -> bool {
    0 <= i && i + pat.len() <= s.len() && s.subrange(i, i + pat.len()) == pat
}

/// The least index where `pat` occurs in `s`, or `None` when it does
/// not occur.
pub open spec fn spec_find(s: Seq<char>, pat: Seq<char>) -> Option<int>
    decreases s.len(),
{
    if pat.len() == 0 {
        Some(0int)
    } else if pat.len() > s.len() {
        None
    } else if s.take(pat.len() as int) == pat {
        Some(0int)
    } else {
        match spec_find(s.skip(1), pat) {
            None => None,
            Some(i) => Some(i + 1),
        }
    }
}

/// `s` with its first `count` non-overlapping occurrences of `pat`
/// replaced by `to`. After an occurrence of an empty `pat`, the search
/// resumes past the next character.
pub open spec fn spec_replacen(s: Seq<char>, pat: Seq<char>, to: Seq<char>, count: nat) -> Seq<
    char,
>
    decreases count,
{
    if count == 0 {
        s
    } else if pat.len() == 0 {
        if s.len() == 0 {
            to
        } else {
            to + s.take(1) + spec_replacen(s.skip(1), pat, to, (count - 1) as nat)
        }
    } else {
        match spec_find(s, pat) {
            None => s,
            Some(i) => s.take(i) + to + spec_replacen(
                s.skip(i + pat.len()),
                pat,
                to,
                (count - 1) as nat,
            ),
        }
    }
}

/// Replacing zero occurrences leaves any text unchanged, whatever the
/// pattern and the replacement.
pub proof fn lemma_replacen_count_zero(s: Seq<char>, pat: Seq<char>, to: Seq<char>)
    ensures
        spec_replacen(s, pat, to, 0) == s,
{
}

/// Whether `pat` occurs in `s` at index `i`.
fn occurs_at(s: &str, pat: &str, i: usize) -> (b: bool)
    requires
        i + pat@.len() <= s@.len(),
    ensures
        b == match_at(s@, pat@, i as int),
{
    let n: usize = s.unicode_len();
    let m: usize = pat.unicode_len();
    let mut j: usize = 0;
    while j < m
        invariant
            j <= m,
            n == s@.len(),
            m == pat@.len(),
            i + m <= n,
            forall|k: int| 0 <= k < j ==> s@[i + k] == pat@[k],
        decreases m - j,
    {
        if s.get_char(i + j) != pat.get_char(j) {
            proof {
                assert(s@.subrange(i as int, i + m)[j as int] == s@[i + j]);
            }
            return false;
        }
        j = j + 1;
    }
    proof {
        assert(s@.subrange(i as int, i + m) =~= pat@);
    }
    true
}

/// Finds the first occurrence of `pat` in `s`, as [`spec_find`]
/// describes.
pub fn find_first(s: &str, pat: &str) -> (r: Option<usize>)
    ensures
        match r {
            Some(i) => spec_find(s@, pat@) == Some(i as int) && i + pat@.len() <= s@.len(),
            None => spec_find(s@, pat@) is None,
        },
{
    let n: usize = s.unicode_len();
    let m: usize = pat.unicode_len();
    if m > n {
        return None;
    }
    if m == 0 {
        return Some(0);
    }
    let mut k: usize = 0;
    proof {
        assert(s@.skip(0) =~= s@);
    }
    while k <= n - m
        invariant
            k <= n - m + 1,
            0 < m <= n,
            n == s@.len(),
            m == pat@.len(),
            match spec_find(s@.skip(k as int), pat@) {
                None => spec_find(s@, pat@) is None,
                Some(i) => spec_find(s@, pat@) == Some(i + k),
            },
        decreases n - m + 1 - k,
    {
        if occurs_at(s, pat, k) {
            proof {
                assert(s@.skip(k as int).take(m as int) =~= s@.subrange(k as int, k + m));
            }
            return Some(k);
        }
        proof {
            assert(s@.skip(k as int).take(m as int) =~= s@.subrange(k as int, k + m));
            assert(s@.skip(k as int).skip(1) =~= s@.skip(k as int + 1));
        }
        k = k + 1;
    }
    proof {
        assert(s@.skip(k as int).len() < m);
    }
    None
}

/// `s` with its first `count` non-overlapping occurrences of `pat`
/// replaced by `to`, as [`spec_replacen`] describes.
pub fn replacen_str(s: &str, pat: &str, to: &str, count: usize) -> (r: String)
    ensures
        r@ == spec_replacen(s@, pat@, to@, count as nat),
    decreases count,
{
    if count == 0 {
        return s.to_owned();
    }
    let n: usize = s.unicode_len();
    let m: usize = pat.unicode_len();
    if m == 0 {
        if n == 0 {
            return to.to_owned();
        }
        let mut r = to.to_owned();
        r.append(s.substring_char(0, 1));
        let rest = s.substring_char(1, n);
        let tail = replacen_str(rest, pat, to, count - 1);
        r.append(tail.as_str());
        proof {
            assert(rest@ =~= s@.skip(1));
            assert(r@ =~= spec_replacen(s@, pat@, to@, count as nat));
        }
        r
    } else {
        match find_first(s, pat) {
            None => s.to_owned(),
            Some(i) => {
                let mut r = s.substring_char(0, i).to_owned();
                r.append(to);
                let rest = s.substring_char(i + m, n);
                let tail = replacen_str(rest, pat, to, count - 1);
                r.append(tail.as_str());
                proof {
                    assert(rest@ =~= s@.skip(i + m));
                    assert(s@.subrange(0, i as int) =~= s@.take(i as int));
                    assert(r@ =~= spec_replacen(s@, pat@, to@, count as nat));
                }
                r
            },
        }
    }
}

} // verus!
