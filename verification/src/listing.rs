//! The order of a directory listing: folders first, then by lowercased name,
//! ties kept in the order in which the directory gave them.
use vstd::prelude::*;

use crate::portal::FileItem;
use crate::text::{chars_of, lowercase, to_lowercase};

verus! {

// ─── Lexicographic order of character sequences ───────────────────────

/// `a` comes strictly before `b` when compared character by character by
/// code point, a proper prefix coming first. This is the order of `str`'s
/// `Ord`, which compares UTF-8 bytes, an encoding that keeps code point order.
pub open spec fn lex_less(a: Seq<char>, b: Seq<char>) -> bool
    decreases a.len(),
{
    if a.len() == 0 {
        b.len() > 0
    } else if b.len() == 0 {
        false
    } else if (a[0] as u32) < (b[0] as u32) {
        true
    } else if a[0] == b[0] {
        lex_less(a.drop_first(), b.drop_first())
    } else {
        false
    }
}

/// Where two sequences first differ, the one with the smaller code point
/// there comes first, whatever their lengths.
pub proof fn lemma_lex_first_difference(a: Seq<char>, b: Seq<char>, d: int)
    requires
        0 <= d < a.len(),
        d < b.len(),
        a.take(d) == b.take(d),
        (a[d] as u32) < (b[d] as u32),
    ensures
        lex_less(a, b),
    decreases d,
{
    if d > 0 {
        assert(a[0] == a.take(d)[0]);
        assert(b[0] == b.take(d)[0]);
        assert(a.drop_first().take(d - 1) =~= a.take(d).drop_first());
        assert(b.drop_first().take(d - 1) =~= b.take(d).drop_first());
        lemma_lex_first_difference(a.drop_first(), b.drop_first(), d - 1);
    }
}

/// A proper prefix comes before the sequences it begins.
pub proof fn lemma_lex_proper_prefix(a: Seq<char>, b: Seq<char>)
    requires
        a.len() < b.len(),
        b.take(a.len() as int) == a,
    ensures
        lex_less(a, b),
    decreases a.len(),
{
    if a.len() > 0 {
        assert(a[0] == b.take(a.len() as int)[0]);
        assert(b.drop_first().take(a.len() - 1) =~= a.drop_first());
        lemma_lex_proper_prefix(a.drop_first(), b.drop_first());
    }
}

/// No sequence comes before itself.
pub proof fn lemma_lex_irreflexive(a: Seq<char>)
    ensures
        !lex_less(a, a),
    decreases a.len(),
{
    if a.len() > 0 {
        lemma_lex_irreflexive(a.drop_first());
    }
}

/// The order is transitive.
pub proof fn lemma_lex_transitive(a: Seq<char>, b: Seq<char>, c: Seq<char>)
    requires
        lex_less(a, b),
        lex_less(b, c),
    ensures
        lex_less(a, c),
    decreases a.len(),
{
    if a.len() > 0 && b.len() > 0 && c.len() > 0 && a[0] == b[0] && b[0] == c[0] {
        lemma_lex_transitive(a.drop_first(), b.drop_first(), c.drop_first());
    }
}

/// Two different sequences are ordered one way or the other.
pub proof fn lemma_lex_total(a: Seq<char>, b: Seq<char>)
    ensures
        a == b || lex_less(a, b) || lex_less(b, a),
    decreases a.len(),
{
    if a.len() > 0 && b.len() > 0 && a[0] == b[0] {
        lemma_lex_total(a.drop_first(), b.drop_first());
        if a.drop_first() == b.drop_first() {
            assert(a =~= seq![a[0]] + a.drop_first());
            assert(b =~= seq![b[0]] + b.drop_first());
        }
    } else if a.len() == 0 && b.len() == 0 {
        assert(a =~= b);
    } else if a.len() > 0 && b.len() > 0 {
        vstd::utf8::char_u32_cast(a[0], a[0] as u32);
        vstd::utf8::char_u32_cast(b[0], b[0] as u32);
    }
}

/// Decides [`lex_less`] on two character vectors.
pub fn lex_less_exec(a: &Vec<char>, b: &Vec<char>) -> (r: bool)
    ensures
        r == lex_less(a@, b@),
{
    let mut i: usize = 0;
    assert(a@.skip(0) =~= a@);
    assert(b@.skip(0) =~= b@);
    while i < a.len() && i < b.len() && a[i] == b[i]
        invariant
            i <= a@.len(),
            i <= b@.len(),
            lex_less(a@, b@) == lex_less(a@.skip(i as int), b@.skip(i as int)),
        decreases a@.len() - i,
    {
        assert(a@.skip(i as int).drop_first() =~= a@.skip(i + 1));
        assert(b@.skip(i as int).drop_first() =~= b@.skip(i + 1));
        i = i + 1;
    }
    if i == a.len() {
        i < b.len()
    } else if i == b.len() {
        false
    } else {
        (a[i] as u32) < (b[i] as u32)
    }
}

// ─── Listing order of directory entries ───────────────────────────────

/// The text by which entries of the same kind are ordered.
pub open spec fn name_key(item: FileItem) -> Seq<char> {
    lowercase(item.name@)
}

/// `a` is listed strictly before `b`: folders before files, and within one
/// kind by lowercased name.
pub open spec fn listed_before(a: FileItem, b: FileItem) -> bool {
    ||| a.is_directory && !b.is_directory
    ||| a.is_directory == b.is_directory && lex_less(name_key(a), name_key(b))
}

/// No entry is listed before itself, and of two entries at most one comes first.
pub proof fn lemma_listed_before_asymmetric(a: FileItem, b: FileItem)
    ensures
        !listed_before(a, a),
        listed_before(a, b) ==> !listed_before(b, a),
{
    lemma_lex_irreflexive(name_key(a));
    if listed_before(a, b) && listed_before(b, a) {
        lemma_lex_transitive(name_key(a), name_key(b), name_key(a));
    }
}

/// "Not listed after" is transitive.
pub proof fn lemma_not_before_transitive(a: FileItem, b: FileItem, c: FileItem)
    requires
        !listed_before(b, a),
        !listed_before(c, b),
    ensures
        !listed_before(c, a),
{
    if listed_before(c, a) && c.is_directory == a.is_directory && b.is_directory
        == a.is_directory {
        lemma_lex_total(name_key(a), name_key(b));
        if lex_less(name_key(a), name_key(b)) {
            lemma_lex_transitive(name_key(c), name_key(a), name_key(b));
        }
    }
}

/// `p` shows that `out` is `input` sorted stably by [`listed_before`]:
/// `out[k]` is `input[p[k]]`, no index is used twice, no entry is listed after
/// one that follows it, and entries that tie keep their order from `input`.
pub open spec fn is_stable_sort_witness(out: Seq<FileItem>, input: Seq<FileItem>, p: Seq<int>) -> bool {
    &&& out.len() == input.len()
    &&& p.len() == out.len()
    &&& forall|k: int| 0 <= k < p.len() ==> 0 <= #[trigger] p[k] < input.len()
    &&& forall|k: int| 0 <= k < p.len() ==> #[trigger] out[k] == input[p[k]]
    &&& forall|k: int, l: int| 0 <= k < l < p.len() ==> #[trigger] p[k] != #[trigger] p[l]
    &&& forall|k: int, l: int|
        0 <= k < l < out.len() ==> !listed_before(#[trigger] out[l], #[trigger] out[k])
    &&& forall|k: int, l: int|
        0 <= k < l < out.len() && !listed_before(#[trigger] out[k], #[trigger] out[l]) ==> p[k]
            < p[l]
}

/// `out` is a stable sort of `input` by [`listed_before`].
pub open spec fn is_stable_sort_of(out: Seq<FileItem>, input: Seq<FileItem>) -> bool {
    exists|p: Seq<int>| is_stable_sort_witness(out, input, p)
}

/// Decides [`listed_before`] for two entries, given their name keys.
fn item_listed_before(a: &FileItem, a_key: &Vec<char>, b: &FileItem, b_key: &Vec<char>) -> (r:
    bool)
    requires
        a_key@ == name_key(*a),
        b_key@ == name_key(*b),
    ensures
        r == listed_before(*a, *b),
{
    if a.is_directory && !b.is_directory {
        true
    } else if a.is_directory == b.is_directory {
        lex_less_exec(a_key, b_key)
    } else {
        false
    }
}

/// Sorts entries as a directory listing shows them: folders first, then by
/// lowercased name; entries that tie keep their order.
pub fn sort_file_items(items: Vec<FileItem>) -> (out: Vec<FileItem>)
    ensures
        is_stable_sort_of(out@, items@),
{
    // Entries are taken from the back of `rest` and inserted into `out` before
    // the first entry that is not listed before them; an entry thus lands in
    // front of the later entries it ties with, which keeps ties in order.
    let ghost input = items@;
    let n = items.len();
    let mut rest = items;
    let mut out: Vec<FileItem> = Vec::new();
    let mut keys: Vec<Vec<char>> = Vec::new();
    let ghost mut p: Seq<int> = seq![];
    while rest.len() > 0
        invariant
            n == input.len(),
            rest@ == input.take(rest@.len() as int),
            out@.len() + rest@.len() == n,
            keys@.len() == out@.len(),
            p.len() == out@.len(),
            forall|k: int| 0 <= k < keys@.len() ==> #[trigger] keys@[k]@ == name_key(out@[k]),
            forall|k: int| 0 <= k < p.len() ==> rest@.len() <= #[trigger] p[k] < n,
            forall|k: int| 0 <= k < p.len() ==> #[trigger] out@[k] == input[p[k]],
            forall|k: int, l: int| 0 <= k < l < p.len() ==> #[trigger] p[k] != #[trigger] p[l],
            forall|k: int, l: int|
                0 <= k < l < out@.len() ==> !listed_before(#[trigger] out@[l], #[trigger] out@[k]),
            forall|k: int, l: int|
                0 <= k < l < out@.len() && !listed_before(#[trigger] out@[k], #[trigger] out@[l])
                    ==> p[k] < p[l],
        decreases rest@.len(),
    {
        let ghost i = rest@.len() - 1;
        let item = rest.pop().unwrap();
        assert(item == input[i]);
        assert(rest@ =~= input.take(rest@.len() as int));
        let lower = to_lowercase(item.name.as_str());
        let key = chars_of(lower.as_str());
        let mut pos: usize = 0;
        while pos < out.len() && item_listed_before(&out[pos], &keys[pos], &item, &key)
            invariant
                pos <= out@.len(),
                keys@.len() == out@.len(),
                key@ == name_key(item),
                forall|k: int| 0 <= k < keys@.len() ==> #[trigger] keys@[k]@ == name_key(out@[k]),
                forall|k: int| 0 <= k < pos ==> listed_before(#[trigger] out@[k], item),
            decreases out@.len() - pos,
        {
            pos = pos + 1;
        }
        let ghost old_out = out@;
        let ghost old_keys = keys@;
        let ghost old_p = p;
        proof {
            assert forall|k: int| pos <= k < old_out.len() implies !listed_before(
                #[trigger] old_out[k],
                item,
            ) by {
                if k > pos {
                    lemma_not_before_transitive(item, old_out[pos as int], old_out[k]);
                }
            }
            assert forall|k: int| 0 <= k < pos implies !listed_before(item, #[trigger] old_out[k]) by {
                lemma_listed_before_asymmetric(old_out[k], item);
            }
        }
        out.insert(pos, item);
        keys.insert(pos, key);
        proof {
            p = old_p.insert(pos as int, i);
            assert forall|k: int| 0 <= k < keys@.len() implies #[trigger] keys@[k]@ == name_key(
                out@[k],
            ) by {
                if k < pos {
                    assert(keys@[k] == old_keys[k]);
                } else if k > pos {
                    assert(keys@[k] == old_keys[k - 1]);
                    assert(out@[k] == old_out[k - 1]);
                }
            }
            assert forall|k: int, l: int| 0 <= k < l < out@.len() implies !listed_before(
                #[trigger] out@[l],
                #[trigger] out@[k],
            ) by {
                if l < pos {
                } else if l == pos {
                    assert(out@[k] == old_out[k]);
                } else if k < pos {
                    assert(out@[l] == old_out[l - 1]);
                    lemma_not_before_transitive(old_out[k], item, old_out[l - 1]);
                } else if k == pos {
                    assert(out@[l] == old_out[l - 1]);
                } else {
                    assert(out@[l] == old_out[l - 1]);
                    assert(out@[k] == old_out[k - 1]);
                }
            }
            assert forall|k: int, l: int|
                0 <= k < l < out@.len() && !listed_before(
                    #[trigger] out@[k],
                    #[trigger] out@[l],
                ) implies p[k] < p[l] by {
                if l < pos {
                } else if l == pos {
                    assert(out@[k] == old_out[k]);
                } else if k < pos {
                    assert(out@[l] == old_out[l - 1]);
                    assert(p[l] == old_p[l - 1]);
                } else if k == pos {
                    assert(p[l] == old_p[l - 1]);
                } else {
                    assert(out@[l] == old_out[l - 1]);
                    assert(out@[k] == old_out[k - 1]);
                    assert(p[l] == old_p[l - 1]);
                    assert(p[k] == old_p[k - 1]);
                }
            }
            assert forall|k: int, l: int| 0 <= k < l < p.len() implies #[trigger] p[k]
                != #[trigger] p[l] by {
                if k < pos && l > pos {
                    assert(p[l] == old_p[l - 1]);
                } else if k > pos {
                    assert(p[l] == old_p[l - 1]);
                    assert(p[k] == old_p[k - 1]);
                }
            }
        }
    }
    proof {
        assert(is_stable_sort_witness(out@, input, p));
    }
    out
}

/// In a listing sorted this way every folder comes before every file, and
/// entries of one kind are in order of their lowercased names.
pub proof fn law_folders_listed_first(out: Seq<FileItem>, input: Seq<FileItem>)
    requires
        is_stable_sort_of(out, input),
    ensures
        forall|k: int, l: int|
            0 <= k < l < out.len() && (#[trigger] out[l]).is_directory ==> (#[trigger] out[k]).is_directory,
        forall|k: int, l: int|
            0 <= k < l < out.len() && (#[trigger] out[k]).is_directory == (#[trigger] out[l]).is_directory
                ==> !lex_less(name_key(out[l]), name_key(out[k])),
{
    let p = choose|p: Seq<int>| is_stable_sort_witness(out, input, p);
    assert forall|k: int, l: int|
        0 <= k < l < out.len() && (#[trigger] out[l]).is_directory implies (#[trigger] out[k]).is_directory by {
        assert(!listed_before(out[l], out[k]));
    }
    assert forall|k: int, l: int|
        0 <= k < l < out.len() && (#[trigger] out[k]).is_directory == (#[trigger] out[l]).is_directory
        implies !lex_less(name_key(out[l]), name_key(out[k])) by {
        assert(!listed_before(out[l], out[k]));
    }
}

/// Within one kind, a listing is alphabetical by lowercased name: of two
/// entries whose lowercased names first differ at some position, the one with
/// the smaller character there comes first, whatever the names' lengths; and
/// a name comes after every name that is a proper prefix of it.
pub proof fn law_listing_alphabetical(out: Seq<FileItem>, input: Seq<FileItem>)
    requires
        is_stable_sort_of(out, input),
    ensures
        forall|k: int, l: int, d: int|
            #![trigger name_key(out[k])[d], name_key(out[l])[d]]
            0 <= k < out.len() && 0 <= l < out.len() && out[k].is_directory == out[l].is_directory
                && 0 <= d < name_key(out[k]).len() && d < name_key(
                out[l],
            ).len() && name_key(out[k]).take(d) == name_key(out[l]).take(d) && (name_key(
                out[k],
            )[d] as u32) < (name_key(out[l])[d] as u32) ==> k < l,
        forall|k: int, l: int|
            0 <= k < out.len() && 0 <= l < out.len() && (#[trigger] out[k]).is_directory == (
            #[trigger] out[l]).is_directory && name_key(out[k]).len() < name_key(out[l]).len()
                && name_key(out[l]).take(name_key(out[k]).len() as int) == name_key(out[k]) ==> k
                < l,
{
    law_folders_listed_first(out, input);
    assert forall|k: int, l: int, d: int|
        #![trigger name_key(out[k])[d], name_key(out[l])[d]]
        0 <= k < out.len() && 0 <= l < out.len() && out[k].is_directory == out[l].is_directory
            && 0 <= d < name_key(out[k]).len() && d < name_key(
            out[l],
        ).len() && name_key(out[k]).take(d) == name_key(out[l]).take(d) && (name_key(
            out[k],
        )[d] as u32) < (name_key(out[l])[d] as u32) implies k < l by {
        lemma_lex_first_difference(name_key(out[k]), name_key(out[l]), d);
        if l < k {
            assert(!lex_less(name_key(out[k]), name_key(out[l])));
        } else if l == k {
            lemma_lex_irreflexive(name_key(out[k]));
        }
    }
    assert forall|k: int, l: int|
        0 <= k < out.len() && 0 <= l < out.len() && (#[trigger] out[k]).is_directory == (
        #[trigger] out[l]).is_directory && name_key(out[k]).len() < name_key(out[l]).len()
            && name_key(out[l]).take(name_key(out[k]).len() as int) == name_key(out[k]) implies k
        < l by {
        lemma_lex_proper_prefix(name_key(out[k]), name_key(out[l]));
        if l < k {
            assert(!lex_less(name_key(out[k]), name_key(out[l])));
        }
    }
}

/// The listing entry for a directory entry: folders are listed with size 0.
pub open spec fn entry_item(entry: (String, bool, u64)) -> FileItem {
    FileItem { name: entry.0, is_directory: entry.1, size: if entry.1 { 0 } else { entry.2 } }
}

/// Builds the listing of a directory from its entries (name, is a folder,
/// length in bytes), in the order in which the directory gave them: each
/// becomes a [`FileItem`], and the items are sorted stably, folders first, then
/// by lowercased name.
pub fn file_listing(entries: Vec<(String, bool, u64)>) -> (out: Vec<FileItem>)
    ensures
        is_stable_sort_of(out@, entries@.map_values(|e: (String, bool, u64)| entry_item(e))),
{
    let ghost spec_items = entries@.map_values(|e: (String, bool, u64)| entry_item(e));
    let mut items: Vec<FileItem> = Vec::new();
    // Entries are moved out from the back, so they are first reversed.
    let mut rest = entries;
    let mut reversed: Vec<(String, bool, u64)> = Vec::new();
    while rest.len() > 0
        invariant
            rest@.len() + reversed@.len() == entries@.len(),
            rest@ == entries@.take(rest@.len() as int),
            forall|k: int|
                0 <= k < reversed@.len() ==> #[trigger] reversed@[k] == entries@[entries@.len()
                    - 1 - k],
        decreases rest@.len(),
    {
        let e = rest.pop().unwrap();
        reversed.push(e);
        assert(rest@ =~= entries@.take(rest@.len() as int));
    }
    while reversed.len() > 0
        invariant
            items@.len() + reversed@.len() == entries@.len(),
            forall|k: int|
                0 <= k < reversed@.len() ==> #[trigger] reversed@[k] == entries@[entries@.len()
                    - 1 - k],
            spec_items == entries@.map_values(|e: (String, bool, u64)| entry_item(e)),
            forall|k: int| 0 <= k < items@.len() ==> #[trigger] items@[k] == spec_items[k],
        decreases reversed@.len(),
    {
        assert(reversed@[reversed@.len() - 1] == entries@[items@.len() as int]);
        let e = reversed.pop().unwrap();
        let is_dir = e.1;
        let size: u64 = if is_dir { 0 } else { e.2 };
        items.push(FileItem { name: e.0, is_directory: is_dir, size });
        assert(items@[items@.len() - 1] == spec_items[items@.len() - 1]);
    }
    assert(items@ =~= spec_items);
    sort_file_items(items)
}

} // verus!
