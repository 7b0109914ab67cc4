//! The enumerator: out of every file a tree walk discovered, keep the ones
//! whose path survives the entry filter and the selector, and hand them
//! back sorted by relative path in byte-wise lexicographic order — so that
//! two walks of an unchanged tree always produce the same artifact.

use vstd::prelude::*;
use crate::byteseq::{lemma_lex_total, lemma_lex_trans, lex_leq, lex_leq_bytes};
use crate::filter::{
    should_prune_walk_entry, should_skip_file, spec_is_secret_name, spec_should_prune_walk_entry,
    spec_should_skip_file,
};
use crate::markup::spec_file_name_of;
use crate::selector::Selector;

verus! {

/// One discovered file: its slash-relative path under the root, and its
/// absolute path.
pub struct Entry {
    pub rel: Vec<u8>,
    pub abs: Vec<u8>,
}

/// The mathematical shadow of an [`Entry`].
pub ghost struct EntryView {
    pub rel: Seq<u8>,
    pub abs: Seq<u8>,
}

impl View for Entry {
    type V = EntryView;

    open spec fn view(&self) -> EntryView {
        EntryView { rel: self.rel@, abs: self.abs@ }
    }
}

/// The views of a sequence of entries.
pub open spec fn entry_views(s: Seq<Entry>) -> Seq<EntryView> {
    s.map_values(|e: Entry| e@)
}

/// Copies a byte vector.
fn clone_bytes(v: &Vec<u8>) -> (r: Vec<u8>)
    ensures
        r@ == v@,
{
    vstd::slice::slice_to_vec(v.as_slice())
}

/// Copies an entry.
fn clone_entry(e: &Entry) -> (r: Entry)
    ensures
        r@ == e@,
{
    Entry { rel: clone_bytes(&e.rel), abs: clone_bytes(&e.abs) }
}

/// `rel[i..j]` is one directory component of the path: it ends right
/// before a slash, starts at the beginning or right after a slash, and
/// holds no slash itself.
pub open spec fn is_dir_component(rel: Seq<u8>, i: int, j: int) -> bool {
    &&& 0 <= i <= j < rel.len()
    &&& rel[j] == '/' as u8
    &&& (i == 0 || rel[i - 1] == '/' as u8)
    &&& (forall|k: int| i <= k < j ==> rel[k] != '/' as u8)
}

/// No directory component on the way to the file is pruned.
pub open spec fn spec_dirs_visible(rel: Seq<u8>, include_hidden: bool) -> bool {
    forall|i: int, j: int|
        #[trigger] is_dir_component(rel, i, j) ==> !spec_should_prune_walk_entry(
            rel.subrange(i, j),
            true,
            include_hidden,
        )
}

/// Backslash separators become slashes, so patterns match the same path on
/// every platform.
pub open spec fn spec_normalize_slashes(rel: Seq<u8>) -> Seq<u8> {
    rel.map_values(|b: u8| if b == '\\' as u8 { '/' as u8 } else { b })
}

/// Backslash separators become slashes.
pub fn normalize_slashes(rel: &[u8]) -> (r: Vec<u8>)
    ensures
        r@ == spec_normalize_slashes(rel@),
{
    let mut v: Vec<u8> = Vec::new();
    let mut i: usize = 0;
    while i < rel.len()
        invariant
            i <= rel@.len(),
            v@ == spec_normalize_slashes(rel@).take(i as int),
        decreases rel@.len() - i,
    {
        let b = rel[i];
        if b == '\\' as u8 {
            v.push('/' as u8);
        } else {
            v.push(b);
        }
        i += 1;
        proof {
            assert(v@ =~= spec_normalize_slashes(rel@).take(i as int));
        }
    }
    proof {
        assert(v@ =~= spec_normalize_slashes(rel@));
    }
    v
}

/// Whether an enumerated file is kept: every directory on its path is
/// visible, the file itself is not skipped, and the selector accepts the
/// slash-normalized relative path.
pub open spec fn spec_keep_entry(rel: Seq<u8>, include_hidden: bool, sel: Selector) -> bool {
    &&& spec_dirs_visible(rel, include_hidden)
    &&& !spec_should_skip_file(rel, include_hidden)
    &&& sel.spec_matches(spec_normalize_slashes(rel))
}

/// Checks that no directory component of `rel` is pruned.
fn dirs_visible(rel: &[u8], include_hidden: bool) -> (r: bool)
    ensures
        r == spec_dirs_visible(rel@, include_hidden),
{
    let mut s: usize = 0;
    let mut k: usize = 0;
    while k < rel.len()
        invariant
            s <= k <= rel@.len(),
            s == 0 || rel@[s - 1] == '/' as u8,
            forall|t: int| s <= t < k ==> rel@[t] != '/' as u8,
            forall|i: int, j: int|
                #[trigger] is_dir_component(rel@, i, j) && j < k ==> !spec_should_prune_walk_entry(
                    rel@.subrange(i, j),
                    true,
                    include_hidden,
                ),
        decreases rel@.len() - k,
    {
        if rel[k] == '/' as u8 {
            let name = vstd::slice::slice_subrange(rel, s, k);
            if should_prune_walk_entry(name, true, include_hidden) {
                proof {
                    assert(is_dir_component(rel@, s as int, k as int));
                }
                return false;
            }
            proof {
                assert forall|i: int, j: int|
                    #[trigger] is_dir_component(rel@, i, j) && j < k + 1 implies
                    !spec_should_prune_walk_entry(
                        rel@.subrange(i, j),
                        true,
                        include_hidden,
                    ) by {
                    if j == k {
                        if i < s {
                            assert(rel@[s - 1] == '/' as u8);
                            assert(i <= s - 1 < j);
                            assert(false);
                        }
                        if i > s {
                            assert(rel@[i - 1] == '/' as u8);
                            assert(s <= i - 1 < k);
                            assert(false);
                        }
                        assert(i == s);
                    }
                }
            }
            s = k + 1;
        }
        k += 1;
    }
    proof {
        assert forall|i: int, j: int| #[trigger] is_dir_component(rel@, i, j) implies
            !spec_should_prune_walk_entry(rel@.subrange(i, j), true, include_hidden) by {
            assert(j < rel@.len());
        }
    }
    true
}

/// Inserts an entry into a sorted sequence, after every entry that is not
/// strictly greater — so equal keys keep their arrival order.
pub open spec fn spec_insert_entry(s: Seq<EntryView>, e: EntryView) -> Seq<EntryView>
    decreases s.len(),
{
    if s.len() == 0 {
        seq![e]
    } else if lex_leq(s[0].rel, e.rel) {
        seq![s[0]] + spec_insert_entry(s.subrange(1, s.len() as int), e)
    } else {
        seq![e] + s
    }
}

/// Stable insertion sort of entries by relative path.
pub open spec fn spec_sort_entries(s: Seq<EntryView>) -> Seq<EntryView>
    decreases s.len(),
{
    if s.len() == 0 {
        s
    } else {
        spec_insert_entry(spec_sort_entries(s.drop_last()), s.last())
    }
}

/// Sorted in byte-wise lexicographic order of relative path.
pub open spec fn entries_sorted(s: Seq<EntryView>) -> bool {
    forall|a: int, b: int| 0 <= a < b < s.len() ==> lex_leq(#[trigger] s[a].rel, #[trigger] s[b].rel)
}

/// Inserting adds exactly the new entry to the members.
proof fn lemma_insert_contains(s: Seq<EntryView>, e: EntryView)
    ensures
        forall|x: EntryView|
            #[trigger] spec_insert_entry(s, e).contains(x) <==> (s.contains(x) || x == e),
        spec_insert_entry(s, e).len() == s.len() + 1,
    decreases s.len(),
{
    if s.len() == 0 {
        assert(spec_insert_entry(s, e) == seq![e]);
        assert(spec_insert_entry(s, e)[0] == e);
        assert forall|x: EntryView| #[trigger] spec_insert_entry(s, e).contains(x) implies (
        s.contains(x) || x == e) by {
            let w = choose|w: int|
                0 <= w < spec_insert_entry(s, e).len() && spec_insert_entry(s, e)[w] == x;
            assert(w == 0);
        }
        assert(spec_insert_entry(s, e).contains(e));
    } else if lex_leq(s[0].rel, e.rel) {
        let tail = s.subrange(1, s.len() as int);
        lemma_insert_contains(tail, e);
        assert forall|x: EntryView| #[trigger] spec_insert_entry(s, e).contains(x) implies (
        s.contains(x) || x == e) by {
            let t = spec_insert_entry(s, e);
            let w = choose|w: int| 0 <= w < t.len() && t[w] == x;
            if w == 0 {
                assert(s[0] == x);
            } else {
                assert(spec_insert_entry(tail, e)[w - 1] == x);
                assert(spec_insert_entry(tail, e).contains(x));
                if tail.contains(x) {
                    let u = choose|u: int| 0 <= u < tail.len() && tail[u] == x;
                    assert(s[u + 1] == x);
                }
            }
        }
        assert forall|x: EntryView| (s.contains(x) || x == e) implies #[trigger] spec_insert_entry(
            s,
            e,
        ).contains(x) by {
            let t = spec_insert_entry(s, e);
            if x == e || tail.contains(x) {
                assert(spec_insert_entry(tail, e).contains(x));
                let u = choose|u: int|
                    0 <= u < spec_insert_entry(tail, e).len() && spec_insert_entry(tail, e)[u] == x;
                assert(t[u + 1] == x);
            } else if s.contains(x) {
                let w = choose|w: int| 0 <= w < s.len() && s[w] == x;
                if w == 0 {
                    assert(t[0] == x);
                } else {
                    assert(tail[w - 1] == x);
                    assert(tail.contains(x));
                    let u = choose|u: int|
                        0 <= u < spec_insert_entry(tail, e).len() && spec_insert_entry(tail, e)[u]
                            == x;
                    assert(t[u + 1] == x);
                }
            }
        }
    } else {
        assert forall|x: EntryView| #[trigger] spec_insert_entry(s, e).contains(x) implies (
        s.contains(x) || x == e) by {
            let t = spec_insert_entry(s, e);
            let w = choose|w: int| 0 <= w < t.len() && t[w] == x;
            if w > 0 {
                assert(s[w - 1] == x);
            }
        }
        assert forall|x: EntryView| (s.contains(x) || x == e) implies #[trigger] spec_insert_entry(
            s,
            e,
        ).contains(x) by {
            let t = spec_insert_entry(s, e);
            if x == e {
                assert(t[0] == x);
            } else {
                let w = choose|w: int| 0 <= w < s.len() && s[w] == x;
                assert(t[w + 1] == x);
            }
        }
    }
}

/// Inserting into a sorted sequence keeps it sorted.
proof fn lemma_insert_sorted(s: Seq<EntryView>, e: EntryView)
    requires
        entries_sorted(s),
    ensures
        entries_sorted(spec_insert_entry(s, e)),
    decreases s.len(),
{
    if s.len() == 0 {
    } else if lex_leq(s[0].rel, e.rel) {
        let tail = s.subrange(1, s.len() as int);
        assert(entries_sorted(tail));
        lemma_insert_sorted(tail, e);
        lemma_insert_contains(tail, e);
        let t = spec_insert_entry(s, e);
        let ti = spec_insert_entry(tail, e);
        assert forall|a: int, b: int| 0 <= a < b < t.len() implies lex_leq(
            #[trigger] t[a].rel,
            #[trigger] t[b].rel,
        ) by {
            if a == 0 {
                assert(t[b] == ti[b - 1]);
                assert(ti.contains(ti[b - 1]));
                if ti[b - 1] == e {
                } else {
                    assert(tail.contains(ti[b - 1]));
                    let u = choose|u: int| 0 <= u < tail.len() && tail[u] == ti[b - 1];
                    assert(s[u + 1] == ti[b - 1]);
                    assert(lex_leq(s[0].rel, s[u + 1].rel));
                }
            } else {
                assert(t[a] == ti[a - 1] && t[b] == ti[b - 1]);
            }
        }
    } else {
        lemma_lex_total(s[0].rel, e.rel);
        let t = spec_insert_entry(s, e);
        assert forall|a: int, b: int| 0 <= a < b < t.len() implies lex_leq(
            #[trigger] t[a].rel,
            #[trigger] t[b].rel,
        ) by {
            if a == 0 {
                assert(t[b] == s[b - 1]);
                if b == 1 {
                } else {
                    lemma_lex_trans(e.rel, s[0].rel, s[b - 1].rel);
                }
            } else {
                assert(t[a] == s[a - 1] && t[b] == s[b - 1]);
            }
        }
    }
}

/// What sorting guarantees: same members, same length, sorted order.
pub proof fn lemma_sort_entries(s: Seq<EntryView>)
    ensures
        forall|x: EntryView| #[trigger] spec_sort_entries(s).contains(x) <==> s.contains(x),
        spec_sort_entries(s).len() == s.len(),
        entries_sorted(spec_sort_entries(s)),
    decreases s.len(),
{
    if s.len() == 0 {
    } else {
        let front = s.drop_last();
        lemma_sort_entries(front);
        lemma_insert_contains(spec_sort_entries(front), s.last());
        lemma_insert_sorted(spec_sort_entries(front), s.last());
        assert forall|x: EntryView| #[trigger] spec_sort_entries(s).contains(x) implies s.contains(
            x,
        ) by {
            if spec_sort_entries(front).contains(x) {
                let u = choose|u: int| 0 <= u < front.len() && front[u] == x;
                assert(s[u] == x);
            } else {
                assert(x == s.last());
                assert(s[s.len() - 1] == x);
            }
        }
        assert forall|x: EntryView| s.contains(x) implies #[trigger] spec_sort_entries(s).contains(
            x,
        ) by {
            let w = choose|w: int| 0 <= w < s.len() && s[w] == x;
            if w < s.len() - 1 {
                assert(front[w] == x);
                assert(front.contains(x));
            } else {
                assert(x == s.last());
            }
        }
    }
}

/// An entry goes exactly where the first strictly greater entry stands.
proof fn lemma_insert_at(s: Seq<EntryView>, e: EntryView, j: int)
    requires
        0 <= j <= s.len(),
        forall|k: int| 0 <= k < j ==> lex_leq(#[trigger] s[k].rel, e.rel),
        j < s.len() ==> !lex_leq(s[j].rel, e.rel),
    ensures
        spec_insert_entry(s, e) == s.take(j) + seq![e] + s.skip(j),
    decreases j,
{
    if j == 0 {
        if s.len() == 0 {
            assert(spec_insert_entry(s, e) =~= s.take(0) + seq![e] + s.skip(0));
        } else {
            assert(spec_insert_entry(s, e) =~= s.take(0) + seq![e] + s.skip(0));
        }
    } else {
        let tail = s.subrange(1, s.len() as int);
        lemma_insert_at(tail, e, j - 1);
        assert(seq![s[0]] + (tail.take(j - 1) + seq![e] + tail.skip(j - 1)) =~= s.take(j)
            + seq![e] + s.skip(j));
    }
}

/// Sorts entries by relative path, stably.
fn sort_entries(input: Vec<Entry>) -> (r: Vec<Entry>)
    ensures
        entry_views(r@) == spec_sort_entries(entry_views(input@)),
{
    let ghost all = entry_views(input@);
    let mut out_v: Vec<Entry> = Vec::new();
    let mut i: usize = 0;
    while i < input.len()
        invariant
            i <= input@.len(),
            all == entry_views(input@),
            entry_views(out_v@) == spec_sort_entries(all.take(i as int)),
        decreases input@.len() - i,
    {
        let e = clone_entry(&input[i]);
        let mut j: usize = 0;
        while j < out_v.len() && lex_leq_bytes(out_v[j].rel.as_slice(), e.rel.as_slice())
            invariant
                j <= out_v@.len(),
                e@ == input@[i as int]@,
                forall|k: int| 0 <= k < j ==> lex_leq(#[trigger] entry_views(out_v@)[k].rel, e@.rel),
            decreases out_v@.len() - j,
        {
            j += 1;
        }
        proof {
            lemma_insert_at(entry_views(out_v@), e@, j as int);
        }
        let ghost before = entry_views(out_v@);
        out_v.insert(j, e);
        i += 1;
        proof {
            assert(entry_views(out_v@) =~= before.take(j as int) + seq![e@] + before.skip(j as int));
            assert(all.take(i as int).drop_last() =~= all.take(i - 1));
            assert(all.take(i as int).last() == all[i - 1]);
            assert(entry_views(out_v@) =~= spec_sort_entries(all.take(i as int)));
        }
    }
    proof {
        assert(all.take(input@.len() as int) =~= all);
    }
    out_v
}

/// What a pack enumerates: of all discovered files, those kept by the
/// entry filter and the selector, sorted by relative path.
pub open spec fn spec_collect_files(
    entries: Seq<EntryView>,
    include_hidden: bool,
    sel: Selector,
) -> Seq<EntryView> {
    spec_sort_entries(
        entries.filter(|e: EntryView| spec_keep_entry(e.rel, include_hidden, sel)),
    )
}

/// Filters the discovered files through the entry filter and the selector
/// and sorts them by relative path.
pub fn collect_files_sorted(entries: &Vec<Entry>, include_hidden: bool, selector: &Selector) -> (r:
    Vec<Entry>)
    ensures
        entry_views(r@) == spec_collect_files(entry_views(entries@), include_hidden, *selector),
{
    let ghost all = entry_views(entries@);
    let ghost pred = |e: EntryView| spec_keep_entry(e.rel, include_hidden, *selector);
    let mut kept: Vec<Entry> = Vec::new();
    let mut i: usize = 0;
    while i < entries.len()
        invariant
            i <= entries@.len(),
            all == entry_views(entries@),
            pred == (|e: EntryView| spec_keep_entry(e.rel, include_hidden, *selector)),
            entry_views(kept@) == all.take(i as int).filter(pred),
        decreases entries@.len() - i,
    {
        let e = &entries[i];
        let mut keep = dirs_visible(e.rel.as_slice(), include_hidden);
        if keep {
            keep = !should_skip_file(e.rel.as_slice(), include_hidden);
        }
        if keep {
            let norm = normalize_slashes(e.rel.as_slice());
            keep = selector.matches(norm.as_slice());
        }
        let ghost before = entry_views(kept@);
        if keep {
            kept.push(clone_entry(e));
        }
        i += 1;
        proof {
            reveal(Seq::filter);
            assert(all.take(i as int).drop_last() =~= all.take(i - 1));
            assert(all.take(i as int).last() == all[i - 1]);
            assert(keep == pred(all[i - 1]));
            if keep {
                assert(entry_views(kept@) =~= before.push(all[i - 1]));
            }
            assert(entry_views(kept@) =~= all.take(i as int).filter(pred));
        }
    }
    proof {
        assert(all.take(entries@.len() as int) =~= all);
    }
    sort_entries(kept)
}

/// Determinism: the enumeration is a function of the discovered entries,
/// the hidden-file policy and the selector alone — two runs over an
/// unchanged tree see the same entries and therefore produce identical
/// ordered output.
pub proof fn lemma_enumeration_deterministic(
    e1: Seq<EntryView>,
    e2: Seq<EntryView>,
    include_hidden: bool,
    sel: Selector,
)
    requires
        e1 == e2,
    ensures
        spec_collect_files(e1, include_hidden, sel) == spec_collect_files(e2, include_hidden, sel),
{
}

/// What a sequence filtered by `pred` holds: exactly the members that
/// satisfy `pred`.
proof fn lemma_filter_members(s: Seq<EntryView>, pred: spec_fn(EntryView) -> bool)
    ensures
        forall|x: EntryView| #[trigger] s.filter(pred).contains(x) <==> (s.contains(x) && pred(x)),
    decreases s.len(),
{
    reveal(Seq::filter);
    broadcast use vstd::seq_lib::lemma_seq_contains_after_push;

    if s.len() > 0 {
        let d = s.drop_last();
        let l = s.last();
        lemma_filter_members(d, pred);
        assert(s =~= d.push(l));
        assert forall|x: EntryView| #[trigger] s.filter(pred).contains(x) <==> (s.contains(x)
            && pred(x)) by {
            assert(s.contains(x) == d.push(l).contains(x));
            if pred(l) {
                assert(s.filter(pred) == d.filter(pred).push(l));
            } else {
                assert(s.filter(pred) == d.filter(pred));
            }
        }
    }
}

/// The enumeration comes back sorted by relative path, and holds exactly
/// the entries that the filter and selector keep.
pub proof fn lemma_collect_files_sorted_and_complete(
    entries: Seq<EntryView>,
    include_hidden: bool,
    sel: Selector,
)
    ensures
        entries_sorted(spec_collect_files(entries, include_hidden, sel)),
        forall|x: EntryView|
            #[trigger] spec_collect_files(entries, include_hidden, sel).contains(x) <==> (
            entries.contains(x) && spec_keep_entry(x.rel, include_hidden, sel)),
{
    let pred = |e: EntryView| spec_keep_entry(e.rel, include_hidden, sel);
    let filtered = entries.filter(pred);
    lemma_sort_entries(filtered);
    lemma_filter_members(entries, pred);
}

/// Secret precedence: no selector and no hidden-file policy can bring a
/// secret-shaped file into the enumeration.
pub proof fn lemma_secrets_never_enumerated(
    entries: Seq<EntryView>,
    include_hidden: bool,
    sel: Selector,
    x: EntryView,
)
    requires
        spec_is_secret_name(spec_file_name_of(x.rel)),
    ensures
        !spec_collect_files(entries, include_hidden, sel).contains(x),
{
    crate::filter::lemma_secret_always_skipped(x.rel, include_hidden);
    lemma_collect_files_sorted_and_complete(entries, include_hidden, sel);
}

} // verus!
