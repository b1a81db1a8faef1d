//! Path strings as the browser uses them: joining a directory path with a
//! child's name, and taking the parent of a directory path. Paths are kept
//! canonical — no trailing separator except on the filesystem root `/` —
//! so the parent of a path is everything before its last separator.

use vstd::prelude::*;
use vstd::string::StrSliceExecFns;
use vstd::string::StringExecFns;

verus! {

/// The directory path joined with a child name: a single separator is put
/// between them unless the directory already ends in one.
pub open spec fn join_of(dir: Seq<char>, name: Seq<char>) -> Seq<char> {
    if dir.len() > 0 && dir.last() == '/' {
        dir + name
    } else {
        dir + seq!['/'] + name
    }
}

/// The position of the last separator in `s`, if it has one.
pub open spec fn last_slash_at(s: Seq<char>) -> Option<int>
    decreases s.len(),
{
    if s.len() == 0 {
        None
    } else if s.last() == '/' {
        Some(s.len() - 1)
    } else {
        last_slash_at(s.drop_last())
    }
}

/// The parent of a canonical path: everything before the last separator,
/// the root `/` when the last separator is the leading one, and nothing
/// for the root itself or for a path with no separator at all.
pub open spec fn parent_of(s: Seq<char>) -> Option<Seq<char>> {
    match last_slash_at(s) {
        None => None,
        Some(j) => if j == 0 {
            if s.len() == 1 {
                None
            } else {
                Some(seq!['/'])
            }
        } else {
            Some(s.subrange(0, j))
        },
    }
}

/// What [`last_slash_at`] finds: the separator it points at is the last
/// one, and when it finds none there is none.
proof fn lemma_last_slash_at(s: Seq<char>)
    ensures
        match last_slash_at(s) {
            None => forall|k: int| 0 <= k < s.len() ==> s[k] != '/',
            Some(j) => {
                &&& 0 <= j < s.len()
                &&& s[j] == '/'
                &&& forall|k: int| j < k < s.len() ==> s[k] != '/'
            },
        },
    decreases s.len(),
{
    if s.len() > 0 && s.last() != '/' {
        lemma_last_slash_at(s.drop_last());
        assert forall|k: int| 0 <= k < s.len() - 1 implies s.drop_last()[k] == s[k] by {}
    }
}

/// A canonically written directory path: the root itself, or a nonempty
/// path without a trailing separator.
pub open spec fn canonical_dir(d: Seq<char>) -> bool {
    d =~= seq!['/'] || (d.len() > 0 && d.last() != '/')
}

/// Appending a separator-free tail does not change where the last
/// separator sits.
proof fn lemma_last_slash_append(prefix: Seq<char>, suffix: Seq<char>)
    requires
        !suffix.contains('/'),
    ensures
        last_slash_at(prefix + suffix) == last_slash_at(prefix),
    decreases suffix.len(),
{
    if suffix.len() == 0 {
        assert(prefix + suffix =~= prefix);
    } else {
        let s = prefix + suffix;
        assert(s.last() == suffix.last());
        assert(suffix.contains(suffix.last())) by {
            assert(suffix[suffix.len() - 1] == suffix.last());
        }
        assert(suffix.last() != '/');
        assert(s.drop_last() =~= prefix + suffix.drop_last());
        assert(!suffix.drop_last().contains('/')) by {
            if suffix.drop_last().contains('/') {
                let i = choose|i: int|
                    0 <= i < suffix.drop_last().len() && suffix.drop_last()[i] == '/';
                assert(suffix[i] == '/');
                assert(suffix.contains('/'));
            }
        }
        lemma_last_slash_append(prefix, suffix.drop_last());
    }
}

/// Descend-then-ascend on paths: joining a separator-free component onto
/// a canonically written directory and taking the parent gives the
/// directory back.
pub proof fn lemma_parent_of_join(dir: Seq<char>, name: Seq<char>)
    requires
        canonical_dir(dir),
        name.len() > 0,
        !name.contains('/'),
    ensures
        parent_of(join_of(dir, name)) == Some(dir),
{
    if dir.len() > 0 && dir.last() == '/' {
        assert(dir =~= seq!['/']);
        let j = dir + name;
        lemma_last_slash_append(dir, name);
        assert(last_slash_at(dir) == Some(0int));
        assert(last_slash_at(j) == Some(0int));
        assert(j.len() > 1);
        assert(parent_of(j) == Some(dir));
    } else {
        let j = (dir + seq!['/']) + name;
        assert(join_of(dir, name) =~= j);
        lemma_last_slash_append(dir + seq!['/'], name);
        assert((dir + seq!['/']).last() == '/');
        assert(last_slash_at(dir + seq!['/']) == Some(dir.len() as int));
        assert(last_slash_at(j) == Some(dir.len() as int));
        assert(j.subrange(0, dir.len() as int) =~= dir);
        assert(parent_of(j) == Some(dir));
    }
}

/// Descending keeps paths canonical: a canonically written directory
/// joined with a separator-free component is again canonically written.
pub proof fn lemma_join_canonical(dir: Seq<char>, name: Seq<char>)
    requires
        canonical_dir(dir),
        name.len() > 0,
        !name.contains('/'),
    ensures
        canonical_dir(join_of(dir, name)),
{
    let j = join_of(dir, name);
    assert(j.last() == name.last());
    assert(name.contains(name.last())) by {
        assert(name[name.len() - 1] == name.last());
    }
    assert(name.last() != '/');
}

/// Joins a directory path and a child name with a single separator.
pub fn join_path(dir: &str, name: &str) -> (r: String)
    ensures
        r@ == join_of(dir@, name@),
{
    proof {
        reveal_strlit("/");
    }
    let n = dir.unicode_len();
    let mut out = dir.to_owned();
    if n == 0 || dir.get_char(n - 1) != '/' {
        out.append("/");
        assert(out@ =~= dir@ + seq!['/']);
    }
    out.append(name);
    assert(out@ =~= join_of(dir@, name@));
    out
}

/// The parent of a canonical path, as [`parent_of`] describes it.
pub fn parent_path(s: &str) -> (r: Option<String>)
    ensures
        r is None <==> parent_of(s@) is None,
        r matches Some(p) ==> parent_of(s@) matches Some(q) && p@ == q,
{
    proof {
        reveal_strlit("/");
        lemma_last_slash_at(s@);
    }
    let n = s.unicode_len();
    let mut idx: Option<usize> = None;
    let mut i: usize = 0;
    while i < n
        invariant
            n == s@.len(),
            i <= n,
            match idx {
                None => forall|k: int| 0 <= k < i ==> s@[k] != '/',
                Some(j) => {
                    &&& j < i
                    &&& s@[j as int] == '/'
                    &&& forall|k: int| j < k < i ==> s@[k] != '/'
                },
            },
        decreases n - i,
    {
        if s.get_char(i) == '/' {
            idx = Some(i);
        }
        i = i + 1;
    }
    match idx {
        None => None,
        Some(j) => {
            proof {
                assert(last_slash_at(s@) matches Some(jj) && jj == j);
            }
            if j == 0 {
                if n == 1 {
                    None
                } else {
                    let root = "/".to_owned();
                    assert(root@ =~= seq!['/']);
                    Some(root)
                }
            } else {
                Some(s.substring_char(0, j).to_owned())
            }
        },
    }
}

} // verus!
