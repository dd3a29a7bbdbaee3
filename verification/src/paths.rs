//! Paths as plain strings, with the final component read off as
//! `std::path` does: trailing `/` separators and final `.` components are
//! ignored; a path whose last real component is `..` has no file name, and
//! its parent is the path with that component stripped.

use vstd::prelude::*;
use vstd::string::*;

verus! {

/// The index of the last `/` among the first `n` characters of the path, or
/// `-1` if there is none.
pub open spec fn last_slash_before(path: Seq<char>, n: int) -> int
    decreases n,
{
    if n <= 0 {
        -1
    } else if path[n - 1] == '/' {
        n - 1
    } else {
        last_slash_before(path, n - 1)
    }
}

/// The index of the last `/` in the path, or `-1` if there is none.
pub open spec fn last_slash(path: Seq<char>) -> int {
    last_slash_before(path, path.len() as int)
}

/// The path ends in a lone `.` component: a final `.` that stands at the
/// start or right after a `/` (so not the end of a name such as `a.` or
/// `..`).
pub open spec fn ends_in_cur_dir(path: Seq<char>) -> bool {
    &&& path.len() > 0
    &&& path.last() == '.'
    &&& (path.len() == 1 || path[path.len() - 2] == '/')
}

/// The path with trailing `/` separators and final `.` components removed:
/// what remains ends in the path's last real component (or is empty).
pub open spec fn trimmed(path: Seq<char>) -> Seq<char>
    decreases path.len(),
{
    if path.len() == 0 {
        path
    } else if path.last() == '/' || ends_in_cur_dir(path) {
        trimmed(path.drop_last())
    } else {
        path
    }
}

/// The file name at the end of a path: its last real component (trailing
/// separators and `.` components ignored), or `None` when that component is
/// `..` or there is none (an empty, root, or all-`.` path).
pub open spec fn file_name_of(path: Seq<char>) -> Option<Seq<char>> {
    let stem = trimmed(path);
    let rest = stem.skip(last_slash(stem) + 1);
    if rest.len() == 0 {
        None
    } else if rest == seq!['.', '.'] {
        None
    } else {
        Some(rest)
    }
}

/// The parent directory of a path: the path without its last real component
/// (trailing separators and `.` components ignored), itself trimmed the same
/// way.  A prefix that trims away entirely leaves `/` for an absolute path;
/// a path without a parent (empty, root, or a single relative component)
/// has the empty parent, standing for the current directory.
pub open spec fn parent_of(path: Seq<char>) -> Seq<char> {
    let stem = trimmed(path);
    let i = last_slash(stem);
    if i < 0 {
        Seq::empty()
    } else if trimmed(stem.take(i)).len() == 0 {
        if stem[0] == '/' {
            seq!['/']
        } else {
            Seq::empty()
        }
    } else {
        trimmed(stem.take(i))
    }
}

/// The last slash among the first `n` characters lies before `n`.
proof fn lemma_last_slash_before_bounds(path: Seq<char>, n: int)
    requires
        n >= 0,
    ensures
        -1 <= last_slash_before(path, n) < n,
    decreases n,
{
    if n > 0 && path[n - 1] != '/' {
        lemma_last_slash_before_bounds(path, n - 1);
    }
}

/// The last slash, if any, is a slash, and no later character is one.
proof fn lemma_last_slash_before_char(path: Seq<char>, n: int)
    ensures
        last_slash_before(path, n) >= 0 ==> path[last_slash_before(path, n)] == '/',
        forall|j: int| last_slash_before(path, n) < j < n ==> path[j] != '/',
    decreases n,
{
    if n > 0 && path[n - 1] != '/' {
        lemma_last_slash_before_char(path, n - 1);
    }
}

/// The last slash among the first `n` characters is the same in any prefix
/// that holds them all.
proof fn lemma_last_slash_before_take(s: Seq<char>, k: int, n: int)
    requires
        0 <= n <= k <= s.len(),
    ensures
        last_slash_before(s.take(k), n) == last_slash_before(s, n),
    decreases n,
{
    if n > 0 {
        assert(s.take(k)[n - 1] == s[n - 1]);
        lemma_last_slash_before_take(s, k, n - 1);
    }
}

/// Trimming only removes characters from the end: the result is a prefix.
proof fn lemma_trimmed_prefix(s: Seq<char>)
    ensures
        trimmed(s).len() <= s.len(),
        trimmed(s) == s.take(trimmed(s).len() as int),
    decreases s.len(),
{
    if s.len() == 0 {
        assert(trimmed(s) =~= s.take(0));
    } else if s.last() == '/' || ends_in_cur_dir(s) {
        lemma_trimmed_prefix(s.drop_last());
        let n = trimmed(s).len() as int;
        assert(s.drop_last().take(n) =~= s.take(n));
    } else {
        assert(trimmed(s) =~= s.take(s.len() as int));
    }
}

/// The length of the path's trimmed prefix: `p@.take(r)` is
/// `trimmed(p@.take(end))`.
fn trimmed_len_upto(p: &String, end: usize) -> (r: usize)
    requires
        end <= p@.len(),
    ensures
        r <= end,
        p@.take(r as int) == trimmed(p@.take(end as int)),
{
    let mut k: usize = end;
    while k > 0
        invariant
            0 <= k <= end <= p@.len(),
            trimmed(p@.take(end as int)) == trimmed(p@.take(k as int)),
        decreases k,
    {
        let c = p.as_str().get_char(k - 1);
        proof {
            let t = p@.take(k as int);
            assert(t.last() == c);
            assert(t.drop_last() =~= p@.take(k - 1));
            if k >= 2 {
                assert(t[k - 2] == p@[k - 2]);
            }
        }
        if c == '/' {
            k = k - 1;
        } else if c == '.' && (k == 1 || p.as_str().get_char(k - 2) == '/') {
            proof {
                assert(ends_in_cur_dir(p@.take(k as int)));
            }
            k = k - 1;
        } else {
            proof {
                let t = p@.take(k as int);
                assert(!ends_in_cur_dir(t));
                assert(trimmed(t) == t);
            }
            return k;
        }
    }
    proof {
        assert(trimmed(p@.take(0)) =~= p@.take(0));
    }
    0
}

/// Find the last `/` among the first `end` characters; `r` is its index
/// plus one, or `0` when there is none.
fn last_slash_plus_one_upto(p: &String, end: usize) -> (r: usize)
    requires
        end <= p@.len(),
    ensures
        r == last_slash_before(p@, end as int) + 1,
        r <= end,
{
    proof {
        lemma_last_slash_before_bounds(p@, end as int);
    }
    let mut i: usize = end;
    while i > 0
        invariant
            0 <= i <= end <= p@.len(),
            last_slash_before(p@, end as int) < i,
        decreases i,
    {
        let c = p.as_str().get_char(i - 1);
        proof {
            lemma_last_slash_before_char(p@, end as int);
        }
        if c == '/' {
            return i;
        }
        i = i - 1;
    }
    0
}

/// The parent directory of a path, as `parent_of` describes it.
pub fn parent_dir(path: &String) -> (r: String)
    ensures
        r@ == parent_of(path@),
{
    let len = path.as_str().unicode_len();
    let k = trimmed_len_upto(path, len);
    proof {
        assert(path@.take(len as int) =~= path@);
        lemma_last_slash_before_bounds(path@, k as int);
        lemma_last_slash_before_take(path@, k as int, k as int);
        lemma_trimmed_prefix(path@);
    }
    let ip1 = last_slash_plus_one_upto(path, k);
    if ip1 == 0 {
        proof {
            assert(parent_of(path@) =~= Seq::<char>::empty());
        }
        String::new()
    } else {
        let k2 = trimmed_len_upto(path, ip1 - 1);
        proof {
            let stem = trimmed(path@);
            assert(stem =~= path@.take(k as int));
            assert(stem.take(ip1 - 1) =~= path@.take(ip1 - 1));
        }
        if k2 == 0 {
            if path.as_str().get_char(0) == '/' {
                let s = path.as_str().substring_char(0, 1);
                proof {
                    assert(s@ =~= seq!['/']);
                }
                s.to_owned()
            } else {
                String::new()
            }
        } else {
            let s = path.as_str().substring_char(0, k2);
            s.to_owned()
        }
    }
}

/// The file name at the end of a path, as `file_name_of` describes it:
/// `None` when the path is `None` or has no final file-name component (it
/// is empty or a root, or that component is `..`).
pub fn file_name_opt(path: Option<&String>) -> (r: Option<String>)
    ensures
        match path {
            Option::None => r is None,
            Option::Some(p) => match (r, file_name_of(p@)) {
                (Option::Some(name), Option::Some(spec_name)) => name@ == spec_name,
                (Option::None, Option::None) => true,
                _ => false,
            },
        },
{
    match path {
        Option::None => Option::None,
        Option::Some(p) => {
            let len = p.as_str().unicode_len();
            let k = trimmed_len_upto(p, len);
            proof {
                assert(p@.take(len as int) =~= p@);
                lemma_last_slash_before_bounds(p@, k as int);
                lemma_last_slash_before_take(p@, k as int, k as int);
            }
            let ip1 = last_slash_plus_one_upto(p, k);
            proof {
                let stem = trimmed(p@);
                assert(stem =~= p@.take(k as int));
                assert(stem.skip(last_slash(stem) + 1).len() == k - ip1);
            }
            if ip1 >= k {
                Option::None
            } else {
                let is_dot_dot = k - ip1 == 2 && p.as_str().get_char(ip1) == '.'
                    && p.as_str().get_char(ip1 + 1) == '.';
                proof {
                    let stem = trimmed(p@);
                    let rest = stem.skip(last_slash(stem) + 1);
                    assert(stem =~= p@.take(k as int));
                    assert(forall|j: int|
                        0 <= j < rest.len() ==> rest[j] == p@.take(k as int)[ip1 + j]);
                    if is_dot_dot {
                        assert(rest =~= seq!['.', '.']);
                    } else if k - ip1 == 2 {
                        assert(rest[0] == p@[ip1 as int] && rest[1] == p@[ip1 + 1]);
                        assert(rest != seq!['.', '.']);
                    } else {
                        assert(rest.len() != 2);
                        assert(rest != seq!['.', '.']);
                    }
                }
                if is_dot_dot {
                    Option::None
                } else {
                    let s = p.as_str().substring_char(ip1, k);
                    proof {
                        let stem = trimmed(p@);
                        assert(s@ =~= stem.skip(last_slash(stem) + 1));
                    }
                    Option::Some(s.to_owned())
                }
            }
        },
    }
}

} // verus!
