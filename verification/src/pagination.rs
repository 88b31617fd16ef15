//! The page-cursor walker and the since-cutoff policy.
//!
//! A listing endpoint hands back one [`Page`] at a time: an ordered batch of
//! items and an opaque link to the next page (absent on the last page). The
//! walker follows the links until the chain ends or the cutoff policy stops
//! it. Items of the page that triggered the stop are still emitted: the
//! policy is a page-level early stop, never a per-item filter.

use vstd::prelude::*;

verus! {

/// One page of a paginated listing: the items in server order, and the
/// opaque link to the next page, absent on the last page.
pub struct Page<T> {
    pub items: Vec<T>,
    pub next: Option<String>,
}

/// An item the cutoff policy can read a timestamp from. Items without a
/// usable timestamp return `None` and never stop a walk.
pub trait Stamped {
    /// The timestamp the cutoff policy compares against the threshold.
    spec fn stamp(&self) -> Option<int>;

    /// The timestamp as a value, matching [`Stamped::stamp`].
    fn cutoff_stamp(&self) -> (r: Option<i64>)
        ensures
            opt_int(r) == self.stamp(),
    ;
}

/// An `Option<i64>` as a mathematical option.
pub open spec fn opt_int(o: Option<i64>) -> Option<int> {
    match o {
        Some(v) => Some(v as int),
        None => None,
    }
}

/// The since-cutoff decision after one page: without a threshold the walk
/// always goes on; with one, it goes on exactly when the page's last item
/// has a timestamp no older than the threshold, or has no timestamp at all.
/// A page without items gives no evidence that the listing is still within
/// range, so it stops the walk.
pub open spec fn page_continues<T: Stamped>(items: Seq<T>, threshold: Option<int>) -> bool {
    match threshold {
        None => true,
        Some(s) => items.len() > 0 && match items.last().stamp() {
            None => true,
            Some(l) => l >= s,
        },
    }
}

/// The cutoff policy, as [`page_continues`] says.
pub fn keep_following<T: Stamped>(items: &Vec<T>, threshold: &Option<i64>) -> (r: bool)
    ensures
        r == page_continues(items@, opt_int(*threshold)),
{
    match threshold {
        None => true,
        Some(s) => {
            if items.len() == 0 {
                false
            } else {
                match items[items.len() - 1].cutoff_stamp() {
                    None => true,
                    Some(l) => l >= *s,
                }
            }
        },
    }
}

/// Whether the walk follows this page's link: the page must have one, and
/// the cutoff policy must not stop.
pub open spec fn step_continues<T: Stamped>(page: &Page<T>, threshold: Option<int>) -> bool {
    page.next is Some && page_continues(page.items@, threshold)
}

/// How many pages a walk over this chain fetches. The first page is always
/// fetched; each further page only while its predecessor had a link and the
/// policy let the walk go on.
pub open spec fn pages_walked<T: Stamped>(pages: Seq<Page<T>>, threshold: Option<int>) -> int
    decreases pages.len(),
{
    if pages.len() == 0 {
        0
    } else if step_continues(&pages[0], threshold) {
        1 + pages_walked(pages.drop_first(), threshold)
    } else {
        1
    }
}

/// The items a walk over this chain emits: every item of every fetched page,
/// in page order and, within a page, in server order.
pub open spec fn emitted_items<T: Stamped>(pages: Seq<Page<T>>, threshold: Option<int>) -> Seq<T>
    decreases pages.len(),
{
    if pages.len() == 0 {
        Seq::empty()
    } else if step_continues(&pages[0], threshold) {
        pages[0].items@ + emitted_items(pages.drop_first(), threshold)
    } else {
        pages[0].items@
    }
}

/// Every item of every page in the chain, fetched or not.
pub open spec fn all_items<T>(pages: Seq<Page<T>>) -> Seq<T>
    decreases pages.len(),
{
    if pages.len() == 0 {
        Seq::empty()
    } else {
        pages[0].items@ + all_items(pages.drop_first())
    }
}

/// The sum of the pages' item counts.
pub open spec fn total_item_count<T>(pages: Seq<Page<T>>) -> int
    decreases pages.len(),
{
    if pages.len() == 0 {
        0
    } else {
        pages[0].items@.len() + total_item_count(pages.drop_first())
    }
}

/// The page-cursor walker over a finite chain of pages. `pages[i]`'s link,
/// when present, leads to `pages[i + 1]`; the walker never revisits a page.
/// It returns the emitted items and the number of pages fetched.
pub fn walk<T: Stamped>(pages: Vec<Page<T>>, threshold: Option<i64>) -> (r: (Vec<T>, usize))
    ensures
        r.0@ == emitted_items(pages@, opt_int(threshold)),
        r.1 as int == pages_walked(pages@, opt_int(threshold)),
{
    let ghost all = pages@;
    let ghost thr = opt_int(threshold);
    let n = pages.len();
    let mut rest = pages;
    let mut out: Vec<T> = Vec::new();
    let mut fetched: usize = 0;
    let mut go = rest.len() > 0;
    while go
        invariant
            thr == opt_int(threshold),
            fetched + rest@.len() == n,
            n == all.len(),
            go ==> rest@.len() > 0,
            out@ + (if go {
                emitted_items(rest@, thr)
            } else {
                Seq::<T>::empty()
            }) == emitted_items(all, thr),
            fetched + (if go {
                pages_walked(rest@, thr)
            } else {
                0
            }) == pages_walked(all, thr),
        decreases rest@.len(),
    {
        let ghost before = rest@;
        let ghost out_before = out@;
        let mut page = rest.remove(0);
        proof {
            assert(rest@ =~= before.drop_first());
            assert(page == before[0]);
        }
        fetched = fetched + 1;
        let follows = keep_following(&page.items, &threshold) && page.next.is_some();
        proof {
            assert(follows == step_continues(&before[0], thr));
            if follows {
                assert(emitted_items(before, thr) == before[0].items@ + emitted_items(
                    before.drop_first(),
                    thr,
                ));
                assert(pages_walked(before, thr) == 1 + pages_walked(before.drop_first(), thr));
            } else {
                assert(emitted_items(before, thr) == before[0].items@);
                assert(pages_walked(before, thr) == 1);
            }
        }
        out.append(&mut page.items);
        go = follows && rest.len() > 0;
        proof {
            if go {
                assert(out@ + emitted_items(rest@, thr) =~= out_before + emitted_items(
                    before,
                    thr,
                ));
            } else {
                if follows {
                    assert(rest@.len() == 0);
                    assert(emitted_items(before.drop_first(), thr) == Seq::<T>::empty());
                    assert(pages_walked(before.drop_first(), thr) == 0);
                }
                assert(out@ =~= out_before + emitted_items(before, thr));
            }
        }
    }
    (out, fetched)
}

/// Termination: a walk over a finite chain fetches at least the first page
/// and never more pages than the chain holds.
pub proof fn lemma_walk_bounded<T: Stamped>(pages: Seq<Page<T>>, threshold: Option<int>)
    ensures
        pages.len() > 0 ==> 1 <= pages_walked(pages, threshold),
        pages_walked(pages, threshold) <= pages.len(),
    decreases pages.len(),
{
    if pages.len() > 0 {
        lemma_walk_bounded(pages.drop_first(), threshold);
    }
}

/// Completeness without a cutoff: over a connected chain (every page but the
/// last carries a link) a walk without a threshold fetches every page and
/// emits every item, in order, with no omission and no repetition — the
/// emitted items are exactly the concatenation of the pages' item sequences,
/// and their number is the sum of the per-page counts.
pub proof fn lemma_no_cutoff_walks_all<T: Stamped>(pages: Seq<Page<T>>)
    requires
        forall|i: int| 0 <= i < pages.len() - 1 ==> (#[trigger] pages[i]).next is Some,
    ensures
        pages_walked(pages, None) == pages.len(),
        emitted_items(pages, None) == all_items(pages),
        all_items(pages).len() == total_item_count(pages),
    decreases pages.len(),
{
    if pages.len() == 0 {
    } else {
        let rest = pages.drop_first();
        assert(forall|i: int| 0 <= i < rest.len() - 1 ==> (#[trigger] rest[i]).next is Some) by {
            assert(forall|i: int| 0 <= i < rest.len() - 1 ==> rest[i] == pages[i + 1]);
        }
        lemma_no_cutoff_walks_all::<T>(rest);
        if pages.len() == 1 {
            if pages[0].next is Some {
                assert(pages[0].items@ + emitted_items(rest, None) =~= pages[0].items@ + all_items(
                    rest,
                ));
            } else {
                assert(emitted_items(pages, None) == pages[0].items@);
                assert(all_items(pages) =~= pages[0].items@);
            }
        } else {
            assert(pages[0].next is Some);
        }
    }
}

/// The items of a nested traversal: one complete inner walk per outer item
/// (no threshold applies to inner walks), the walks' emissions concatenated
/// in outer order. Every emitted item stays grouped with the outer item
/// whose walk produced it, and groups never interleave.
pub open spec fn grouped_items<T: Stamped>(groups: Seq<Vec<Page<T>>>) -> Seq<T>
    decreases groups.len(),
{
    if groups.len() == 0 {
        Seq::empty()
    } else {
        emitted_items(groups[0]@, None) + grouped_items(groups.drop_first())
    }
}

/// Where group `w`'s emission starts inside [`grouped_items`].
pub open spec fn group_offset<T: Stamped>(groups: Seq<Vec<Page<T>>>, w: int) -> int {
    grouped_items(groups.take(w)).len() as int
}

/// Nested grouping, positionally: item `j` of group `w`'s walk stands at
/// position `group_offset(groups, w) + j` of the traversal's output, so the
/// output is exactly group 0's items, then group 1's, and so on.
pub proof fn lemma_grouped_index<T: Stamped>(groups: Seq<Vec<Page<T>>>, w: int, j: int)
    requires
        0 <= w < groups.len(),
        0 <= j < emitted_items(groups[w]@, None).len(),
    ensures
        0 <= group_offset(groups, w) + j < grouped_items(groups).len(),
        grouped_items(groups)[group_offset(groups, w) + j] == emitted_items(groups[w]@, None)[j],
    decreases w,
{
    lemma_group_offset_bounds(groups, w);
    if w == 0 {
        assert(groups.take(0) =~= Seq::<Vec<Page<T>>>::empty());
    } else {
        let rest = groups.drop_first();
        lemma_grouped_index(rest, w - 1, j);
        assert(groups.take(w)[0] == groups[0]);
        assert(groups.take(w).drop_first() =~= rest.take(w - 1));
        assert(rest[w - 1] == groups[w]);
    }
}

/// The offsets of [`group_offset`] stay within the traversal's output.
pub proof fn lemma_group_offset_bounds<T: Stamped>(groups: Seq<Vec<Page<T>>>, w: int)
    requires
        0 <= w <= groups.len(),
    ensures
        group_offset(groups, w) + grouped_items(groups.skip(w)).len() == grouped_items(
            groups,
        ).len(),
    decreases w,
{
    if w == 0 {
        assert(groups.take(0) =~= Seq::<Vec<Page<T>>>::empty());
        assert(groups.skip(0) =~= groups);
    } else {
        let rest = groups.drop_first();
        lemma_group_offset_bounds(rest, w - 1);
        assert(groups.take(w)[0] == groups[0]);
        assert(groups.take(w).drop_first() =~= rest.take(w - 1));
        assert(groups.skip(w) =~= rest.skip(w - 1));
    }
}

/// Every emitted item comes from some page of the chain: the walker invents
/// nothing.
pub proof fn lemma_emitted_membership<T: Stamped>(pages: Seq<Page<T>>, thr: Option<int>, k: int)
    requires
        0 <= k < emitted_items(pages, thr).len(),
    ensures
        exists|p: int, i: int|
            0 <= p < pages.len() && 0 <= i < pages[p].items@.len() && emitted_items(pages, thr)[k]
                == #[trigger] pages[p].items@[i],
    decreases pages.len(),
{
    let e = emitted_items(pages, thr);
    if step_continues(&pages[0], thr) && k >= pages[0].items@.len() {
        let rest = pages.drop_first();
        lemma_emitted_membership(rest, thr, k - pages[0].items@.len());
        let (p, i) = choose|p: int, i: int|
            0 <= p < rest.len() && 0 <= i < rest[p].items@.len() && emitted_items(rest, thr)[k
                - pages[0].items@.len()] == #[trigger] rest[p].items@[i];
        assert(pages[p + 1] == rest[p]);
        assert(0 <= p + 1 < pages.len() && 0 <= i < pages[p + 1].items@.len() && e[k] == pages[p
            + 1].items@[i]);
    } else {
        assert(0 <= 0 < pages.len() && 0 <= k < pages[0].items@.len() && e[k]
            == pages[0].items@[k]);
    }
}

/// The timestamp the policy reads from a page: its last item's stamp.
pub open spec fn last_stamp<T: Stamped>(page: &Page<T>) -> Option<int> {
    if page.items@.len() == 0 {
        None
    } else {
        page.items@.last().stamp()
    }
}

/// Cutoff monotonicity: when every page carries a stamped last item and
/// those stamps never increase along the chain, a walk with threshold `s`
/// fetches no page beyond the first one whose last stamp is strictly older
/// than `s`.
pub proof fn lemma_cutoff_monotone<T: Stamped>(pages: Seq<Page<T>>, s: int, k: int)
    requires
        0 <= k < pages.len(),
        forall|i: int|
            0 <= i < pages.len() ==> (#[trigger] last_stamp(&pages[i])) is Some,
        forall|i: int, j: int|
            0 <= i <= j < pages.len() ==> last_stamp(&pages[i])->Some_0 >= last_stamp(
                &pages[j],
            )->Some_0,
        last_stamp(&pages[k])->Some_0 < s,
    ensures
        pages_walked(pages, Some(s)) <= k + 1,
    decreases pages.len(),
{
    if k == 0 {
        assert(!page_continues(pages[0].items@, Some(s)));
        assert(pages_walked(pages, Some(s)) == 1);
    } else {
        if step_continues(&pages[0], Some(s)) {
            let rest = pages.drop_first();
            assert(forall|i: int| 0 <= i < rest.len() ==> rest[i] == pages[i + 1]);
            lemma_cutoff_monotone::<T>(rest, s, k - 1);
        }
    }
}

} // verus!
