//! The directory lister: one level of a directory's children as [`Item`]
//! snapshots, name-sorted. Enumeration, metadata retrieval and renaming
//! are the filesystem's business and sit behind small trusted wrappers;
//! everything done with what they return — building the snapshots,
//! ordering them, classifying the mode bits — is verified.

use vstd::prelude::*;
use vstd::multiset::Multiset;
use crate::item::Item;
use crate::paths::join_path;

verus! {

/// Why a directory could not be listed.
#[derive(Copy, Clone, Debug, PartialEq, Eq, Structural)]
pub enum ListingError {
    /// The path does not name a directory (or does not exist).
    NotADirectory,
    /// The directory or one of its children could not be read.
    Unreadable,
}

/// One path component: a nonempty name with no separator in it.
pub open spec fn component_name(s: Seq<char>) -> bool {
    s.len() > 0 && !s.contains('/')
}

/// Every entry of the list is named by one path component.
pub open spec fn component_names(s: Seq<Item>) -> bool {
    forall|i: int| 0 <= i < s.len() ==> #[trigger] component_name(s[i].name@)
}

/// Lists the file names of the immediate children of `path`, or nothing
/// if the walk fails. A path that exists but is no directory has no
/// children and yields an empty list.
///
/// Relies on `walkdir::WalkDir`: between `min_depth(1)` and `max_depth(1)`
/// it yields exactly the immediate children of the root, and
/// `DirEntry::file_name` is the child's own name, one path component —
/// directory entries are never empty, a Unix file name cannot carry the
/// separator byte, and the lossy decoding yields the separator character
/// for that byte alone.
#[verifier::external_body]
fn walk_names(path: &str) -> (r: Option<Vec<String>>)
    ensures
        r matches Some(v) ==> forall|i: int|
            0 <= i < v@.len() ==> component_name(#[trigger] v@[i]@),
{
    let mut out: Vec<String> = Vec::new();
    for entry in walkdir::WalkDir::new(path).min_depth(1).max_depth(1) {
        match entry {
            Ok(e) => out.push(e.file_name().to_string_lossy().into_owned()),
            Err(_) => return None,
        }
    }
    Some(out)
}

/// The size, mode bits and modification time of `path`, or nothing if it
/// cannot be inspected.
///
/// Relies on `rustix::fs::lstat`: `st_size` is the byte length, `st_mode`
/// the mode bits, `st_mtime` the modification time in seconds since the
/// Unix epoch; symbolic links are reported themselves, not followed.
#[verifier::external_body]
fn stat_path(path: &str) -> (r: Option<(u64, u32, i64)>) {
    match rustix::fs::lstat(path) {
        Ok(st) => Some((st.st_size as u64, st.st_mode as u32, st.st_mtime as i64)),
        Err(_) => None,
    }
}

/// Whether `path` names a directory, following symbolic links.
///
/// Relies on `rustix::fs::stat` and `rustix::fs::FileType`: the file type
/// is decoded from the `st_mode` field of the successful `stat`, and a
/// path that cannot be inspected is no directory.
#[verifier::external_body]
pub(crate) fn path_is_dir(path: &str) -> (r: bool) {
    match rustix::fs::stat(path) {
        Ok(st) => rustix::fs::FileType::from_raw_mode(st.st_mode).is_dir(),
        Err(_) => false,
    }
}

/// Renames `from` to `to`; true exactly when the filesystem did it.
///
/// Relies on `rustix::fs::rename`, which either performs the rename and
/// returns success or leaves both paths alone and returns an error.
#[verifier::external_body]
pub(crate) fn rename_path(from: &str, to: &str) -> (r: bool) {
    rustix::fs::rename(from, to).is_ok()
}

/// The ten-character rendering of a permission mode, such as
/// `drwxr-xr-x`: a function of the mode bits alone.
pub uninterp spec fn mode_text_of(mode: u32) -> Seq<char>;

/// Renders mode bits as the usual ten-character permission string.
///
/// Relies on `unix_mode::to_string`: it pushes one file-type character
/// and then nine permission flags, reading nothing but `mode`.
#[verifier::external_body]
fn mode_text(mode: u32) -> (r: String)
    ensures
        r@ == mode_text_of(mode),
        r@.len() == 10,
{
    unix_mode::to_string(mode)
}

/// Whether mode bits carry the directory file type.
pub open spec fn spec_mode_is_dir(mode: u32) -> bool {
    ((mode >> 12u32) & 0xfu32) == 0x4u32
}

/// Decodes the file-type nibble of a mode and tests it for the directory
/// type, as `stat`'s `S_IFMT`/`S_IFDIR` constants define it.
pub fn mode_is_dir(mode: u32) -> (r: bool)
    ensures
        r == spec_mode_is_dir(mode),
{
    ((mode >> 12u32) & 0xfu32) == 0x4u32
}

/// Lexicographic order on character sequences, by scalar value.
pub open spec fn lex_le(a: Seq<char>, b: Seq<char>) -> bool
    decreases a.len(),
{
    if a.len() == 0 {
        true
    } else if b.len() == 0 {
        false
    } else if a[0] == b[0] {
        lex_le(a.skip(1), b.skip(1))
    } else {
        (a[0] as int) < (b[0] as int)
    }
}

/// Any two character sequences compare in at least one direction.
pub proof fn lemma_lex_total(a: Seq<char>, b: Seq<char>)
    ensures
        lex_le(a, b) || lex_le(b, a),
    decreases a.len(),
{
    if a.len() > 0 && b.len() > 0 {
        if a[0] == b[0] {
            lemma_lex_total(a.skip(1), b.skip(1));
        } else {
            assert(a[0] as int != b[0] as int);
        }
    }
}

/// Every sequence is ordered no later than itself.
proof fn lemma_lex_refl(a: Seq<char>)
    ensures
        lex_le(a, a),
    decreases a.len(),
{
    if a.len() > 0 {
        lemma_lex_refl(a.skip(1));
    }
}

/// The order chains: what comes no later than `b`, which comes no later
/// than `c`, comes no later than `c`.
proof fn lemma_lex_trans(a: Seq<char>, b: Seq<char>, c: Seq<char>)
    requires
        lex_le(a, b),
        lex_le(b, c),
    ensures
        lex_le(a, c),
    decreases a.len(),
{
    if a.len() > 0 && b.len() > 0 && c.len() > 0 {
        if a[0] == b[0] && b[0] == c[0] {
            lemma_lex_trans(a.skip(1), b.skip(1), c.skip(1));
        }
    }
}

/// Two sequences each ordered no later than the other are the same.
proof fn lemma_lex_antisym(a: Seq<char>, b: Seq<char>)
    requires
        lex_le(a, b),
        lex_le(b, a),
    ensures
        a =~= b,
    decreases a.len(),
{
    if a.len() > 0 && b.len() > 0 && a[0] == b[0] {
        lemma_lex_antisym(a.skip(1), b.skip(1));
        assert forall|i: int| 0 <= i < a.len() implies a[i] == b[i] by {
            if i > 0 {
                assert(a.skip(1)[i - 1] == b.skip(1)[i - 1]);
            }
        }
    }
}

/// Every entry of the list is name-ordered before the next one.
pub open spec fn sorted_by_name(s: Seq<Item>) -> bool {
    forall|i: int|
        0 <= i && i + 1 < s.len() ==> #[trigger] lex_le(s[i].name@, s[i + 1].name@)
}

/// In a name-sorted list every entry is name-ordered before every later
/// one, not only the next.
proof fn lemma_sorted_pairwise(s: Seq<Item>, i: int, j: int)
    requires
        sorted_by_name(s),
        0 <= i <= j < s.len(),
    ensures
        lex_le(s[i].name@, s[j].name@),
    decreases j - i,
{
    if i == j {
        lemma_lex_refl(s[i].name@);
    } else if i + 1 == j {
        assert(lex_le(s[i].name@, s[i + 1].name@));
    } else {
        lemma_sorted_pairwise(s, i, j - 1);
        let jj = j - 1;
        assert(lex_le(s[jj].name@, s[jj + 1].name@));
        lemma_lex_trans(s[i].name@, s[jj].name@, s[j].name@);
    }
}

/// No two entries of the list share a name.
pub open spec fn distinct_names(s: Seq<Item>) -> bool {
    forall|i: int, j: int|
        0 <= i < j < s.len() ==> (#[trigger] s[i].name)@ != (#[trigger] s[j].name)@
}

/// Dropping a list's first entry keeps it name-sorted.
proof fn lemma_sorted_tail(s: Seq<Item>)
    requires
        sorted_by_name(s),
        s.len() > 0,
    ensures
        sorted_by_name(s.drop_first()),
{
    let t = s.drop_first();
    assert forall|i: int| 0 <= i && i + 1 < t.len() implies #[trigger] lex_le(
        t[i].name@,
        t[i + 1].name@,
    ) by {
        assert(t[i] == s[i + 1]);
        assert(t[i + 1] == s[i + 2]);
        assert(lex_le(s[i + 1].name@, s[i + 2].name@));
    }
}

/// Idempotent listing: a name-sorted, duplicate-free listing is the only
/// arrangement of its snapshots, so two loads of a directory that hand
/// back the same collection of snapshots show the same list, entry for
/// entry.
pub proof fn lemma_sorted_listing_unique(a: Seq<Item>, b: Seq<Item>)
    requires
        sorted_by_name(a),
        sorted_by_name(b),
        distinct_names(a),
        distinct_names(b),
        a.to_multiset() == b.to_multiset(),
    ensures
        a =~= b,
    decreases a.len(),
{
    broadcast use vstd::seq_lib::group_to_multiset_ensures;
    broadcast use vstd::multiset::group_multiset_axioms;

    assert(a.len() == a.to_multiset().len());
    assert(b.len() == b.to_multiset().len());
    if a.len() == 0 {
        assert(a =~= b);
    } else {
        assert(a.contains(a[0])) by {
            assert(a[0] == a[0]);
        }
        assert(a.to_multiset().count(a[0]) > 0);
        assert(b.to_multiset().count(a[0]) > 0);
        assert(b.contains(a[0]));
        let k = choose|k: int| 0 <= k < b.len() && b[k] == a[0];
        assert(b.contains(b[0])) by {
            assert(b[0] == b[0]);
        }
        assert(a.to_multiset().count(b[0]) > 0);
        assert(a.contains(b[0]));
        let m = choose|m: int| 0 <= m < a.len() && a[m] == b[0];
        lemma_sorted_pairwise(b, 0, k);
        lemma_sorted_pairwise(a, 0, m);
        lemma_lex_antisym(a[0].name@, b[0].name@);
        assert(k == 0) by {
            if k != 0 {
                assert(b[0].name@ != b[k].name@);
            }
        }
        assert(b[0] == a[0]);
        let a1 = a.drop_first();
        let b1 = b.drop_first();
        assert(a.remove(0) =~= a1);
        assert(b.remove(0) =~= b1);
        vstd::seq_lib::to_multiset_remove(a, 0);
        vstd::seq_lib::to_multiset_remove(b, 0);
        assert(a1.to_multiset() =~= b1.to_multiset());
        lemma_sorted_tail(a);
        lemma_sorted_tail(b);
        assert(distinct_names(a1)) by {
            assert forall|i: int, j: int| 0 <= i < j < a1.len() implies (#[trigger] a1[i].name)@
                != (#[trigger] a1[j].name)@ by {
                assert(a1[i] == a[i + 1]);
                assert(a1[j] == a[j + 1]);
                assert(a[i + 1].name@ != a[j + 1].name@);
            }
        }
        assert(distinct_names(b1)) by {
            assert forall|i: int, j: int| 0 <= i < j < b1.len() implies (#[trigger] b1[i].name)@
                != (#[trigger] b1[j].name)@ by {
                assert(b1[i] == b[i + 1]);
                assert(b1[j] == b[j + 1]);
                assert(b[i + 1].name@ != b[j + 1].name@);
            }
        }
        lemma_sorted_listing_unique(a1, b1);
        assert forall|i: int| 0 <= i < a.len() implies a[i] == b[i] by {
            if i > 0 {
                assert(a1[i - 1] == b1[i - 1]);
            }
        }
        assert(a =~= b);
    }
}

/// Compares two names in the order of [`lex_le`].
pub fn name_le(a: &str, b: &str) -> (r: bool)
    ensures
        r == lex_le(a@, b@),
{
    proof {
        assert(a@.skip(0) =~= a@);
        assert(b@.skip(0) =~= b@);
    }
    let an = a.unicode_len();
    let bn = b.unicode_len();
    let mut i: usize = 0;
    while i < an && i < bn
        invariant
            an == a@.len(),
            bn == b@.len(),
            i <= an,
            i <= bn,
            lex_le(a@, b@) == lex_le(a@.skip(i as int), b@.skip(i as int)),
        decreases an - i,
    {
        let ca = a.get_char(i);
        let cb = b.get_char(i);
        if ca != cb {
            let r = (ca as u32) < (cb as u32);
            assert(r == ((ca as int) < (cb as int)));
            return r;
        }
        proof {
            assert(a@.skip(i as int).skip(1) =~= a@.skip(i + 1));
            assert(b@.skip(i as int).skip(1) =~= b@.skip(i + 1));
        }
        i = i + 1;
    }
    an <= bn
}

/// Sorts the snapshots by name: the result is the same collection of
/// snapshots, name-ordered, every one of them taken from the input.
pub fn sort_by_name(v: Vec<Item>) -> (r: Vec<Item>)
    ensures
        sorted_by_name(r@),
        r@.to_multiset() == v@.to_multiset(),
        r@.len() == v@.len(),
        forall|i: int| 0 <= i < r@.len() ==> v@.contains(#[trigger] r@[i]),
{
    broadcast use vstd::seq_lib::group_to_multiset_ensures;
    broadcast use vstd::multiset::group_multiset_axioms;

    let mut rest = v;
    let mut out: Vec<Item> = Vec::new();
    let ghost orig = rest@;
    proof {
        assert forall|k: int| 0 <= k < rest@.len() implies orig.contains(#[trigger] rest@[k]) by {
            assert(orig[k] == rest@[k]);
        }
    }
    while rest.len() > 0
        invariant
            sorted_by_name(out@),
            out@.to_multiset().add(rest@.to_multiset()) =~= orig.to_multiset(),
            out@.len() + rest@.len() == orig.len(),
            forall|k: int| 0 <= k < out@.len() ==> orig.contains(#[trigger] out@[k]),
            forall|k: int| 0 <= k < rest@.len() ==> orig.contains(#[trigger] rest@[k]),
        decreases rest.len(),
    {
        let ghost rest0 = rest@;
        let x = rest.remove(0);
        proof {
            assert forall|k: int| 0 <= k < rest@.len() implies orig.contains(
                #[trigger] rest@[k],
            ) by {
                assert(rest@[k] == rest0[k + 1]);
            }
        }
        let mut p: usize = 0;
        while p < out.len() && name_le(out[p].name.as_str(), x.name.as_str())
            invariant
                sorted_by_name(out@),
                p <= out@.len(),
                forall|k: int| 0 <= k < p ==> #[trigger] lex_le(out@[k].name@, x.name@),
            decreases out.len() - p,
        {
            p = p + 1;
        }
        proof {
            if p < out@.len() {
                lemma_lex_total(out@[p as int].name@, x.name@);
            }
            vstd::seq_lib::to_multiset_insert(out@, p as int, x);
            out@.insert_ensures(p as int, x);
        }
        let ghost pre = out@;
        out.insert(p, x);
        proof {
            assert forall|i: int| 0 <= i && i + 1 < out@.len() implies #[trigger] lex_le(
                out@[i].name@,
                out@[i + 1].name@,
            ) by {
                if i + 1 < p {
                    assert(out@[i] == pre[i] && out@[i + 1] == pre[i + 1]);
                } else if i + 1 == p {
                    assert(out@[i] == pre[i] && out@[i + 1] == x);
                } else if i == p {
                    assert(out@[i] == x && out@[i + 1] == pre[i]);
                } else {
                    assert(out@[i] == pre[i - 1] && out@[i + 1] == pre[i]);
                }
            }
            assert(orig.contains(x)) by {
                assert(rest0[0] == x);
            }
            assert forall|k: int| 0 <= k < out@.len() implies orig.contains(
                #[trigger] out@[k],
            ) by {
                if k < p {
                    assert(out@[k] == pre[k]);
                } else if k == p {
                    assert(out@[k] == x);
                } else {
                    assert(out@[k] == pre[k - 1]);
                }
            }
            assert(rest0[0] == x);
            vstd::seq_lib::to_multiset_contains(rest0, x);
            assert(rest0.contains(x)) by {
                assert(rest0[0] == x);
            }
            assert(rest0.to_multiset().count(x) > 0);
            assert(out@.to_multiset() =~= pre.to_multiset().insert(x));
            assert(rest@ == rest0.remove(0));
            vstd::seq_lib::to_multiset_remove(rest0, 0);
            assert(rest0.remove(0).to_multiset() =~= rest0.to_multiset().remove(rest0[0]));
            assert forall|y: Item|
                out@.to_multiset().add(rest@.to_multiset()).count(y) == orig.to_multiset().count(
                    y,
                ) by {
                assert(pre.to_multiset().add(rest0.to_multiset()).count(y) == orig.to_multiset()
                    .count(y));
            }
            assert(out@.to_multiset().add(rest@.to_multiset()) =~= orig.to_multiset());
        }
    }
    proof {
        assert forall|y: Item| rest@.to_multiset().count(y) == 0 by {
            vstd::seq_lib::to_multiset_contains(rest@, y);
        }
        assert(rest@.to_multiset() =~= Multiset::<Item>::empty());
        assert(out@.to_multiset() =~= orig.to_multiset());
    }
    out
}

/// Lists the immediate children of `path`, name-sorted, each named by
/// one path component, one [`Item`] per child, or says why it could not.
pub fn get_contents(path: &str) -> (r: Result<Vec<Item>, ListingError>)
    ensures
        r matches Ok(v) ==> sorted_by_name(v@) && component_names(v@),
{
    let names = match walk_names(path) {
        Some(ns) => ns,
        None => {
            return Err(ListingError::Unreadable);
        },
    };
    let mut items: Vec<Item> = Vec::new();
    let mut i: usize = 0;
    while i < names.len()
        invariant
            forall|k: int| 0 <= k < names@.len() ==> component_name(#[trigger] names@[k]@),
            component_names(items@),
        decreases names.len() - i,
    {
        let full = join_path(path, names[i].as_str());
        let (size, mode, mtime) = match stat_path(full.as_str()) {
            Some(m) => m,
            None => {
                return Err(ListingError::Unreadable);
            },
        };
        let is_dir = mode_is_dir(mode);
        let ghost before = items@;
        items.push(
            Item {
                name: names[i].clone(),
                size,
                perms: mode_text(mode),
                modified_date: mtime,
                is_dir,
            },
        );
        proof {
            assert forall|k: int| 0 <= k < items@.len() implies component_name(
                #[trigger] items@[k].name@,
            ) by {
                if k < before.len() {
                    assert(items@[k] == before[k]);
                } else {
                    assert(items@[k].name@ == names@[i as int]@);
                }
            }
        }
        i = i + 1;
    }
    let ghost unsorted = items@;
    let sorted = sort_by_name(items);
    proof {
        assert forall|k: int| 0 <= k < sorted@.len() implies component_name(
            #[trigger] sorted@[k].name@,
        ) by {
            assert(unsorted.contains(sorted@[k]));
            let j = choose|j: int| 0 <= j < unsorted.len() && unsorted[j] == sorted@[k];
            assert(component_name(unsorted[j].name@));
        }
    }
    Ok(sorted)
}

} // verus!
