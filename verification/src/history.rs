//! The transcription history: what a listing shows, what saving a new
//! transcription stores, how an entry is found again and how fresh ids are
//! chosen. Reading and writing the history file happens outside the library;
//! these functions compute the entries that go in and come out.
use vstd::prelude::*;
use crate::text::{decimal, decimal_text, trim_text, trimmed};

verus! {

broadcast use vstd::seq_lib::group_seq_properties;

/// The most entries the history keeps.
pub const MAX_HISTORY_ENTRIES: usize = 100;

/// One saved transcription.
#[derive(Debug, Clone)]
pub struct HistoryEntry {
    pub id: String,
    pub created_at_ms: u64,
    pub text: String,
}

// ---------------------------------------------------------------------------
// Ordering: newest first, stable among equal times
// ---------------------------------------------------------------------------

/// Places `x` into `t` (already newest first) after every entry that is at
/// least as new as `x`.
pub open spec fn insert_newest_first(t: Seq<HistoryEntry>, x: HistoryEntry) -> Seq<HistoryEntry>
    decreases t.len(),
{
    if t.len() == 0 {
        seq![x]
    } else if t.last().created_at_ms >= x.created_at_ms {
        t.push(x)
    } else {
        insert_newest_first(t.drop_last(), x).push(t.last())
    }
}

/// The entries of `s` ordered newest first; entries created at the same
/// millisecond keep the order they have in `s`.
pub open spec fn newest_first(s: Seq<HistoryEntry>) -> Seq<HistoryEntry>
    decreases s.len(),
{
    if s.len() == 0 {
        s
    } else {
        insert_newest_first(newest_first(s.drop_last()), s.last())
    }
}

/// Every entry is at least as new as every entry after it.
pub open spec fn is_newest_first(s: Seq<HistoryEntry>) -> bool {
    forall|i: int, j: int|
        0 <= i < j < s.len() ==> #[trigger] s[i].created_at_ms >= #[trigger] s[j].created_at_ms
}

/// The entries of `s` created at millisecond `ms`, in order.
pub open spec fn created_at(s: Seq<HistoryEntry>, ms: u64) -> Seq<HistoryEntry> {
    s.filter(|e: HistoryEntry| e.created_at_ms == ms)
}

/// The ids of the entries, in order.
pub open spec fn entry_ids(s: Seq<HistoryEntry>) -> Seq<Seq<char>> {
    s.map_values(|e: HistoryEntry| e.id@)
}

/// What a listing shows of the stored entries.
pub open spec fn listing(stored: Seq<HistoryEntry>) -> Seq<HistoryEntry> {
    let ordered = newest_first(stored);
    if ordered.len() > MAX_HISTORY_ENTRIES {
        ordered.take(MAX_HISTORY_ENTRIES as int)
    } else {
        ordered
    }
}

proof fn lemma_filter_push(s: Seq<HistoryEntry>, x: HistoryEntry, ms: u64)
    ensures
        created_at(s.push(x), ms) == if x.created_at_ms == ms {
            created_at(s, ms).push(x)
        } else {
            created_at(s, ms)
        },
{
    reveal(Seq::filter);
    assert(s.push(x).drop_last() =~= s);
}

proof fn lemma_insert_newest_first(t: Seq<HistoryEntry>, x: HistoryEntry)
    requires
        is_newest_first(t),
    ensures
        is_newest_first(insert_newest_first(t, x)),
        insert_newest_first(t, x).len() == t.len() + 1,
        forall|ms: u64|
            #[trigger] created_at(insert_newest_first(t, x), ms) == if x.created_at_ms == ms {
                created_at(t, ms).push(x)
            } else {
                created_at(t, ms)
            },
        forall|e: HistoryEntry|
            #[trigger] insert_newest_first(t, x).contains(e) <==> (t.contains(e) || e == x),
    decreases t.len(),
{
    let r = insert_newest_first(t, x);
    if t.len() == 0 {
        assert forall|ms: u64| #[trigger]
            created_at(r, ms) == if x.created_at_ms == ms {
                created_at(t, ms).push(x)
            } else {
                created_at(t, ms)
            } by {
            lemma_filter_push(t, x, ms);
            assert(t.push(x) =~= r);
        }
        assert forall|e: HistoryEntry| #[trigger] r.contains(e) <==> (t.contains(e) || e == x) by {
            if r.contains(e) {
                assert(r[0] == x);
            }
            if e == x {
                assert(r[0] == x);
            }
        }
    } else if t.last().created_at_ms >= x.created_at_ms {
        assert forall|ms: u64| #[trigger]
            created_at(r, ms) == if x.created_at_ms == ms {
                created_at(t, ms).push(x)
            } else {
                created_at(t, ms)
            } by {
            lemma_filter_push(t, x, ms);
        }
        assert forall|i: int, j: int| 0 <= i < j < r.len() implies #[trigger] r[i].created_at_ms
            >= #[trigger] r[j].created_at_ms by {
            if j == r.len() - 1 && i < t.len() - 1 {
                assert(t[i].created_at_ms >= t[t.len() - 1].created_at_ms);
            }
        }
        assert forall|e: HistoryEntry| #[trigger] r.contains(e) <==> (t.contains(e) || e == x) by {
            if r.contains(e) {
                let i = choose|i: int| 0 <= i < r.len() && r[i] == e;
                if i < t.len() {
                    assert(t[i] == e);
                }
            }
            if t.contains(e) {
                let i = choose|i: int| 0 <= i < t.len() && t[i] == e;
                assert(r[i] == e);
            }
            if e == x {
                assert(r[r.len() - 1] == x);
            }
        }
    } else {
        let t0 = t.drop_last();
        let l = t.last();
        let r0 = insert_newest_first(t0, x);
        lemma_insert_newest_first(t0, x);
        assert(r == r0.push(l));
        assert forall|ms: u64| #[trigger]
            created_at(r, ms) == if x.created_at_ms == ms {
                created_at(t, ms).push(x)
            } else {
                created_at(t, ms)
            } by {
            lemma_filter_push(r0, l, ms);
            lemma_filter_push(t0, l, ms);
            assert(t0.push(l) =~= t);
        }
        assert forall|e: HistoryEntry| #[trigger] r.contains(e) <==> (t.contains(e) || e == x) by {
            if r.contains(e) {
                let i = choose|i: int| 0 <= i < r.len() && r[i] == e;
                if i < r0.len() {
                    assert(r0[i] == e);
                    if t0.contains(e) {
                        let k = choose|k: int| 0 <= k < t0.len() && t0[k] == e;
                        assert(t[k] == e);
                    }
                } else {
                    assert(t[t.len() - 1] == e);
                }
            }
            if t.contains(e) {
                let i = choose|i: int| 0 <= i < t.len() && t[i] == e;
                if i < t0.len() {
                    assert(t0[i] == e);
                    assert(r0.contains(e));
                    let k = choose|k: int| 0 <= k < r0.len() && r0[k] == e;
                    assert(r[k] == e);
                } else {
                    assert(r[r.len() - 1] == e);
                }
            }
            if e == x {
                assert(r0.contains(e));
                let k = choose|k: int| 0 <= k < r0.len() && r0[k] == e;
                assert(r[k] == e);
            }
        }
        assert forall|i: int, j: int| 0 <= i < j < r.len() implies #[trigger] r[i].created_at_ms
            >= #[trigger] r[j].created_at_ms by {
            if j == r.len() - 1 {
                // r[j] is the last entry of t; r[i] is an entry of t0 or x itself
                assert(r0.contains(r[i])) by {
                    assert(r0[i] == r[i]);
                }
                if r[i] == x {
                } else {
                    assert(t0.contains(r[i]));
                    let k = choose|k: int| 0 <= k < t0.len() && t0[k] == r[i];
                    assert(t[k] == r[i]);
                    assert(t[k].created_at_ms >= t[t.len() - 1].created_at_ms);
                }
            } else {
                assert(r0[i] == r[i] && r0[j] == r[j]);
            }
        }
    }
}

/// The newest-first order is sorted by creation time, newest first, and keeps
/// the stored order among entries created at the same millisecond.
pub proof fn lemma_newest_first(s: Seq<HistoryEntry>)
    ensures
        is_newest_first(newest_first(s)),
        newest_first(s).len() == s.len(),
        forall|ms: u64| #[trigger] created_at(newest_first(s), ms) == created_at(s, ms),
        forall|e: HistoryEntry| #[trigger] newest_first(s).contains(e) <==> s.contains(e),
    decreases s.len(),
{
    if s.len() > 0 {
        let s0 = s.drop_last();
        let x = s.last();
        lemma_newest_first(s0);
        lemma_insert_newest_first(newest_first(s0), x);
        assert(s0.push(x) =~= s);
        assert forall|ms: u64| #[trigger] created_at(newest_first(s), ms) == created_at(s, ms) by {
            lemma_filter_push(s0, x, ms);
        }
        assert forall|e: HistoryEntry| #[trigger] newest_first(s).contains(e) <==> s.contains(e) by {
            if s.contains(e) {
                let i = choose|i: int| 0 <= i < s.len() && s[i] == e;
                if i < s0.len() {
                    assert(s0[i] == e);
                }
            }
            if s0.contains(e) {
                let i = choose|i: int| 0 <= i < s0.len() && s0[i] == e;
                assert(s[i] == e);
            }
        }
    } else {
        assert forall|ms: u64| #[trigger] created_at(newest_first(s), ms) == created_at(s, ms) by {
        }
    }
}

proof fn lemma_filter_prepend(x: HistoryEntry, rest: Seq<HistoryEntry>, ms: u64)
    ensures
        created_at(seq![x] + rest, ms) == if x.created_at_ms == ms {
            seq![x] + created_at(rest, ms)
        } else {
            created_at(rest, ms)
        },
{
    reveal(Seq::filter);
    let p = |e: HistoryEntry| e.created_at_ms == ms;
    Seq::filter_distributes_over_add(seq![x], rest, p);
    assert(seq![x].drop_last() =~= Seq::<HistoryEntry>::empty());
    assert(Seq::<HistoryEntry>::empty().filter(p) =~= Seq::<HistoryEntry>::empty());
    if x.created_at_ms == ms {
        assert(seq![x].filter(p) =~= seq![x]);
    } else {
        assert(seq![x].filter(p) =~= Seq::<HistoryEntry>::empty());
    }
}

proof fn lemma_member_in_group(a: Seq<HistoryEntry>, i: int)
    requires
        0 <= i < a.len(),
    ensures
        created_at(a, a[i].created_at_ms).contains(a[i]),
{
    a.lemma_filter_contains(|e: HistoryEntry| e.created_at_ms == a[i].created_at_ms, i);
}

proof fn lemma_group_member(a: Seq<HistoryEntry>, ms: u64, e: HistoryEntry)
    requires
        created_at(a, ms).contains(e),
    ensures
        a.contains(e),
        e.created_at_ms == ms,
{
    let p = |e: HistoryEntry| e.created_at_ms == ms;
    a.lemma_filter_contains_rev(p, e);
    let k = choose|k: int| 0 <= k < created_at(a, ms).len() && created_at(a, ms)[k] == e;
    a.lemma_filter_pred(p, k);
}

/// Two newest-first sequences that hold the same entries for every creation
/// time, in the same order, are equal.
pub proof fn lemma_same_groups_equal(a: Seq<HistoryEntry>, b: Seq<HistoryEntry>)
    requires
        is_newest_first(a),
        is_newest_first(b),
        forall|ms: u64| #[trigger] created_at(a, ms) == created_at(b, ms),
    ensures
        a == b,
    decreases a.len(),
{
    if a.len() == 0 || b.len() == 0 {
        if a.len() > 0 {
            lemma_member_in_group(a, 0);
            assert(created_at(b, a[0].created_at_ms).contains(a[0]));
            lemma_group_member(b, a[0].created_at_ms, a[0]);
        }
        if b.len() > 0 {
            lemma_member_in_group(b, 0);
            assert(created_at(a, b[0].created_at_ms).contains(b[0]));
            lemma_group_member(a, b[0].created_at_ms, b[0]);
        }
        assert(a =~= b);
    } else {
        let x = a[0];
        let y = b[0];
        // the newest times agree
        lemma_member_in_group(a, 0);
        assert(created_at(b, x.created_at_ms).contains(x));
        lemma_group_member(b, x.created_at_ms, x);
        let j = choose|j: int| 0 <= j < b.len() && b[j] == x;
        if j > 0 {
            assert(b[0].created_at_ms >= b[j].created_at_ms);
        }
        lemma_member_in_group(b, 0);
        assert(created_at(a, y.created_at_ms).contains(y));
        lemma_group_member(a, y.created_at_ms, y);
        let i = choose|i: int| 0 <= i < a.len() && a[i] == y;
        if i > 0 {
            assert(a[0].created_at_ms >= a[i].created_at_ms);
        }
        let k = x.created_at_ms;
        assert(y.created_at_ms == k);
        let a1 = a.drop_first();
        let b1 = b.drop_first();
        assert(a =~= seq![x] + a1);
        assert(b =~= seq![y] + b1);
        lemma_filter_prepend(x, a1, k);
        lemma_filter_prepend(y, b1, k);
        assert(created_at(a, k) == created_at(b, k));
        assert((seq![x] + created_at(a1, k))[0] == x);
        assert((seq![y] + created_at(b1, k))[0] == y);
        assert(x == y);
        assert forall|ms: u64| #[trigger] created_at(a1, ms) == created_at(b1, ms) by {
            lemma_filter_prepend(x, a1, ms);
            lemma_filter_prepend(y, b1, ms);
            assert(created_at(a, ms) == created_at(b, ms));
            if ms == k {
                assert(created_at(a1, ms) =~= created_at(a, ms).drop_first());
                assert(created_at(b1, ms) =~= created_at(b, ms).drop_first());
            }
        }
        assert(is_newest_first(a1)) by {
            assert forall|p: int, q: int| 0 <= p < q < a1.len() implies #[trigger] a1[p].created_at_ms
                >= #[trigger] a1[q].created_at_ms by {
                assert(a1[p] == a[p + 1] && a1[q] == a[q + 1]);
            }
        }
        assert(is_newest_first(b1)) by {
            assert forall|p: int, q: int| 0 <= p < q < b1.len() implies #[trigger] b1[p].created_at_ms
                >= #[trigger] b1[q].created_at_ms by {
                assert(b1[p] == b[p + 1] && b1[q] == b[q + 1]);
            }
        }
        lemma_same_groups_equal(a1, b1);
    }
}

/// The newest-first order is the only newest-first sequence that keeps, for
/// every creation time, the stored entries of that time in their stored order.
pub proof fn lemma_newest_first_unique(s: Seq<HistoryEntry>, t: Seq<HistoryEntry>)
    requires
        is_newest_first(t),
        forall|ms: u64| #[trigger] created_at(t, ms) == created_at(s, ms),
    ensures
        t == newest_first(s),
{
    lemma_newest_first(s);
    assert forall|ms: u64| #[trigger] created_at(t, ms) == created_at(newest_first(s), ms) by {
    }
    lemma_same_groups_equal(t, newest_first(s));
}

/// Listing a listed history changes nothing.
pub proof fn lemma_listing_idempotent(stored: Seq<HistoryEntry>)
    ensures
        listing(listing(stored)) == listing(stored),
{
    let l = listing(stored);
    lemma_newest_first(stored);
    assert(is_newest_first(l)) by {
        let o = newest_first(stored);
        assert forall|i: int, j: int| 0 <= i < j < l.len() implies #[trigger] l[i].created_at_ms
            >= #[trigger] l[j].created_at_ms by {
            assert(l[i] == o[i] && l[j] == o[j]);
        }
    }
    lemma_newest_first_unique(l, l);
}

/// A transcription saved at a time no earlier than every listed entry is
/// listed first, and the saved history lists as it was saved.
pub proof fn lemma_saved_entry_listed_first(entries: Seq<HistoryEntry>, saved: Seq<HistoryEntry>)
    requires
        is_newest_first(entries),
        1 <= saved.len() <= MAX_HISTORY_ENTRIES,
        saved.len() <= entries.len() + 1,
        forall|i: int| 0 <= i < entries.len() ==> (#[trigger] entries[i]).created_at_ms
            <= saved[0].created_at_ms,
        saved.drop_first() == entries.take(saved.len() - 1),
    ensures
        listing(saved) == saved,
{
    assert forall|k: int| 1 <= k < saved.len() implies #[trigger] saved[k] == entries[k - 1] by {
        assert(saved[k] == saved.drop_first()[k - 1]);
    }
    assert(is_newest_first(saved)) by {
        assert forall|i: int, j: int| 0 <= i < j < saved.len() implies #[trigger] saved[i].created_at_ms
            >= #[trigger] saved[j].created_at_ms by {
            if i > 0 {
                assert(entries[i - 1].created_at_ms >= entries[j - 1].created_at_ms);
            } else {
                assert(saved[j] == entries[j - 1]);
            }
        }
    }
    lemma_newest_first_unique(saved, saved);
}

/// Where `x` goes: after the last entry of `t` that is at least as new.
proof fn lemma_insert_position(t: Seq<HistoryEntry>, x: HistoryEntry, j: int)
    requires
        0 <= j <= t.len(),
        forall|i: int| j <= i < t.len() ==> (#[trigger] t[i]).created_at_ms < x.created_at_ms,
        j == 0 || t[j - 1].created_at_ms >= x.created_at_ms,
    ensures
        insert_newest_first(t, x) == t.insert(j, x),
    decreases t.len(),
{
    if t.len() == 0 {
        assert(t.insert(j, x) =~= seq![x]);
    } else if t.last().created_at_ms >= x.created_at_ms {
        assert(j == t.len());
        assert(t.insert(j, x) =~= t.push(x));
    } else {
        let t0 = t.drop_last();
        lemma_insert_position(t0, x, j);
        assert(t0.insert(j, x).push(t.last()) =~= t.insert(j, x));
    }
}

/// The entries ordered newest first (stable among equal creation times) and
/// cut to the most recent `MAX_HISTORY_ENTRIES`: what the history window lists
/// of the stored entries.
pub fn list(stored: Vec<HistoryEntry>) -> (out: Vec<HistoryEntry>)
    ensures
        out@ == listing(stored@),
{
    let ghost input = stored@;
    let mut ordered: Vec<HistoryEntry> = Vec::new();
    for e in it: stored
        invariant
            it.seq() == input,
            ordered@ == newest_first(input.take(it.index() as int)),
    {
        let ghost before = ordered@;
        proof {
            lemma_newest_first(input.take(it.index() as int));
            assert(input.take(it.index() + 1).drop_last() =~= input.take(it.index() as int));
            assert(input.take(it.index() + 1).last() == e);
        }
        let mut j = ordered.len();
        while j > 0 && ordered[j - 1].created_at_ms < e.created_at_ms
            invariant
                j <= ordered@.len(),
                ordered@ == before,
                forall|i: int|
                    j <= i < ordered@.len() ==> (#[trigger] ordered@[i]).created_at_ms
                        < e.created_at_ms,
            decreases j,
        {
            j = j - 1;
        }
        proof {
            lemma_insert_position(before, e, j as int);
        }
        ordered.insert(j, e);
    }
    proof {
        assert(input.take(input.len() as int) =~= input);
    }
    if ordered.len() > MAX_HISTORY_ENTRIES {
        ordered.truncate(MAX_HISTORY_ENTRIES);
    }
    ordered
}

// ---------------------------------------------------------------------------
// Fresh ids
// ---------------------------------------------------------------------------

/// The id tried with suffix `suffix`: the creation time in decimal, then for a
/// non-zero suffix a `-` and the suffix in decimal.
pub open spec fn candidate_id(ms: u64, suffix: nat) -> Seq<char> {
    if suffix == 0 {
        decimal(ms as nat)
    } else {
        decimal(ms as nat) + seq!['-'] + decimal(suffix)
    }
}

/// `suffix` is the smallest suffix whose candidate id is not among `ids`.
pub open spec fn is_first_free_suffix(ms: u64, ids: Seq<Seq<char>>, suffix: nat) -> bool {
    &&& !ids.contains(candidate_id(ms, suffix))
    &&& forall|t: nat| t < suffix ==> ids.contains(#[trigger] candidate_id(ms, t))
}

/// The id a new entry created at `ms` gets, next to entries with ids `ids`.
pub open spec fn fresh_id(ms: u64, ids: Seq<Seq<char>>) -> Seq<char> {
    candidate_id(ms, choose|s: nat| is_first_free_suffix(ms, ids, s))
}

/// Different suffixes give different candidate ids.
pub proof fn lemma_candidate_injective(ms: u64, a: nat, b: nat)
    requires
        candidate_id(ms, a) == candidate_id(ms, b),
    ensures
        a == b,
{
    let d = decimal(ms as nat);
    if a == 0 && b != 0 {
        assert(candidate_id(ms, b).len() > d.len());
    } else if a != 0 && b == 0 {
        assert(candidate_id(ms, a).len() > d.len());
    } else if a != 0 && b != 0 {
        let ca = candidate_id(ms, a);
        let cb = candidate_id(ms, b);
        assert(ca.subrange(d.len() + 1int, ca.len() as int) =~= decimal(a));
        assert(cb.subrange(d.len() + 1int, cb.len() as int) =~= decimal(b));
        crate::text::lemma_decimal_injective(a, b);
    }
}

/// Among the first `ids.len() + 1` candidates at least one is free.
pub proof fn lemma_some_suffix_free(ms: u64, ids: Seq<Seq<char>>)
    ensures
        exists|s: nat| s <= ids.len() && !ids.contains(#[trigger] candidate_id(ms, s)),
{
    if forall|s: nat| s <= ids.len() ==> ids.contains(#[trigger] candidate_id(ms, s)) {
        let n = ids.len();
        let cands = Seq::new(n + 1, |i: int| candidate_id(ms, i as nat));
        assert forall|i: int, j: int| 0 <= i < cands.len() && 0 <= j < cands.len() && i != j
            implies cands[i] != cands[j] by {
            if cands[i] == cands[j] {
                lemma_candidate_injective(ms, i as nat, j as nat);
            }
        }
        assert(cands.no_duplicates());
        cands.unique_seq_to_set();
        ids.lemma_cardinality_of_set();
        assert forall|c: Seq<char>| cands.to_set().contains(c) implies ids.to_set().contains(c) by {
            let i = choose|i: int| 0 <= i < cands.len() && cands[i] == c;
            assert(ids.contains(candidate_id(ms, i as nat)));
        }
        vstd::set_lib::lemma_len_subset(cands.to_set(), ids.to_set());
        assert(false);
    }
}

/// The fresh id is the candidate with the smallest free suffix.
pub proof fn lemma_fresh_id_is_first_free(ms: u64, ids: Seq<Seq<char>>, suffix: nat)
    requires
        is_first_free_suffix(ms, ids, suffix),
    ensures
        fresh_id(ms, ids) == candidate_id(ms, suffix),
{
    let c = choose|s: nat| is_first_free_suffix(ms, ids, s);
    lemma_first_free_unique(ms, ids, c, suffix);
}

proof fn lemma_first_free_unique(ms: u64, ids: Seq<Seq<char>>, a: nat, b: nat)
    requires
        is_first_free_suffix(ms, ids, a),
        is_first_free_suffix(ms, ids, b),
    ensures
        a == b,
{
    if a < b {
        assert(ids.contains(candidate_id(ms, a)));
    } else if b < a {
        assert(ids.contains(candidate_id(ms, b)));
    }
}

/// The fresh id is not among the existing ids.
pub proof fn lemma_fresh_id_is_free(ms: u64, ids: Seq<Seq<char>>)
    ensures
        !ids.contains(fresh_id(ms, ids)),
{
    lemma_some_suffix_free(ms, ids);
    let s0 = choose|s: nat| s <= ids.len() && !ids.contains(#[trigger] candidate_id(ms, s));
    lemma_first_free_exists(ms, ids, s0);
}

proof fn lemma_first_free_exists(ms: u64, ids: Seq<Seq<char>>, s0: nat)
    requires
        !ids.contains(candidate_id(ms, s0)),
    ensures
        exists|s: nat| is_first_free_suffix(ms, ids, s),
    decreases s0,
{
    if exists|t: nat| t < s0 && !ids.contains(#[trigger] candidate_id(ms, t)) {
        let t = choose|t: nat| t < s0 && !ids.contains(#[trigger] candidate_id(ms, t));
        lemma_first_free_exists(ms, ids, t);
    } else {
        assert(is_first_free_suffix(ms, ids, s0));
    }
}

fn candidate_text(ms: u64, suffix: u64) -> (out: String)
    ensures
        out@ == candidate_id(ms, suffix as nat),
{
    let mut out = decimal_text(ms);
    if suffix > 0 {
        let dash = "-";
        proof {
            reveal_strlit("-");
        }
        out.append(dash);
        let tail = decimal_text(suffix);
        out.append(tail.as_str());
    }
    out
}

fn id_taken(entries: &Vec<HistoryEntry>, id: &String) -> (taken: bool)
    ensures
        taken == entry_ids(entries@).contains(id@),
{
    let n = entries.len();
    let mut i: usize = 0;
    while i < n
        invariant
            i <= n,
            n == entries@.len(),
            forall|k: int| 0 <= k < i ==> entries@[k].id@ != id@,
        decreases n - i,
    {
        if entries[i].id == *id {
            proof {
                assert(entry_ids(entries@)[i as int] == id@);
            }
            return true;
        }
        i = i + 1;
    }
    proof {
        if entry_ids(entries@).contains(id@) {
            let k = choose|k: int| 0 <= k < n && entry_ids(entries@)[k] == id@;
            assert(entries@[k].id@ == id@);
        }
    }
    false
}

/// An id for an entry created at `created_at_ms` that no entry in `entries`
/// has: the creation time in decimal, or failing that the creation time
/// followed by `-1`, `-2`, ... with the smallest suffix that is free.
pub fn unique_id(created_at_ms: u64, entries: &Vec<HistoryEntry>) -> (id: String)
    ensures
        id@ == fresh_id(created_at_ms, entry_ids(entries@)),
        !entry_ids(entries@).contains(id@),
{
    let ghost ids = entry_ids(entries@);
    let n = entries.len() as u64;
    proof {
        lemma_some_suffix_free(created_at_ms, ids);
    }
    let mut suffix: u64 = 0;
    loop
        invariant
            n == ids.len(),
            ids == entry_ids(entries@),
            suffix <= n,
            exists|s: nat| s <= ids.len() && !ids.contains(#[trigger] candidate_id(created_at_ms, s)),
            forall|t: nat| t < suffix ==> ids.contains(#[trigger] candidate_id(created_at_ms, t)),
        decreases n - suffix,
    {
        let id = candidate_text(created_at_ms, suffix);
        if !id_taken(entries, &id) {
            proof {
                assert(is_first_free_suffix(created_at_ms, ids, suffix as nat));
                let c = choose|s: nat| is_first_free_suffix(created_at_ms, ids, s);
                lemma_first_free_unique(created_at_ms, ids, c, suffix as nat);
            }
            return id;
        }
        proof {
            if suffix == n {
                let s = choose|s: nat| s <= ids.len() && !ids.contains(#[trigger] candidate_id(created_at_ms, s));
                if s < suffix {
                    assert(ids.contains(candidate_id(created_at_ms, s)));
                }
            }
        }
        suffix = suffix + 1;
    }
}

// ---------------------------------------------------------------------------
// Saving, finding, clearing
// ---------------------------------------------------------------------------

/// The history after saving a transcription of `text` at `now_ms` to the
/// listed `entries`: `None` when the trimmed text is empty (nothing is saved);
/// otherwise the new entry (trimmed text, fresh id) first, followed by the
/// newest entries, at most `MAX_HISTORY_ENTRIES` in all.
pub fn save_transcription(entries: Vec<HistoryEntry>, text: &str, now_ms: u64) -> (saved: Option<
    Vec<HistoryEntry>,
>)
    ensures
        saved is Some <==> trimmed(text@).len() > 0,
        saved matches Some(v) ==> {
            &&& v@.len() == if entries@.len() + 1 > MAX_HISTORY_ENTRIES {
                MAX_HISTORY_ENTRIES as int
            } else {
                entries@.len() + 1int
            }
            &&& v@[0].id@ == fresh_id(now_ms, entry_ids(entries@))
            &&& v@[0].created_at_ms == now_ms
            &&& v@[0].text@ == trimmed(text@)
            &&& v@.drop_first() == entries@.take(v@.len() - 1)
        },
{
    let text = trim_text(text);
    if text.as_str().is_empty() {
        return None;
    }
    let id = unique_id(now_ms, &entries);
    let mut entries = entries;
    let ghost before = entries@;
    entries.insert(0, HistoryEntry { id, created_at_ms: now_ms, text });
    if entries.len() > MAX_HISTORY_ENTRIES {
        entries.truncate(MAX_HISTORY_ENTRIES);
    }
    proof {
        assert(entries@.drop_first() =~= before.take(entries@.len() - 1));
    }
    Some(entries)
}

/// `i` is the position of the first entry with id `id`.
pub open spec fn is_first_with_id(s: Seq<HistoryEntry>, id: Seq<char>, i: int) -> bool {
    &&& 0 <= i < s.len()
    &&& s[i].id@ == id
    &&& forall|j: int| 0 <= j < i ==> (#[trigger] s[j]).id@ != id
}

/// The text to put on the clipboard for the entry with id `id`: that of the
/// first such entry, or the error `History entry not found` when none has it.
pub fn copy_entry(entries: &Vec<HistoryEntry>, id: &str) -> (copied: Result<String, String>)
    ensures
        copied matches Ok(t) ==> exists|i: int|
            is_first_with_id(entries@, id@, i) && t@ == #[trigger] entries@[i].text@,
        copied matches Err(e) ==> !entry_ids(entries@).contains(id@) && e@
            == "History entry not found"@,
        copied is Ok <==> entry_ids(entries@).contains(id@),
{
    let wanted = id.to_owned();
    let n = entries.len();
    let mut i: usize = 0;
    while i < n
        invariant
            i <= n,
            n == entries@.len(),
            wanted@ == id@,
            forall|k: int| 0 <= k < i ==> (#[trigger] entries@[k]).id@ != id@,
        decreases n - i,
    {
        if entries[i].id == wanted {
            proof {
                assert(is_first_with_id(entries@, id@, i as int));
                assert(entry_ids(entries@)[i as int] == id@);
            }
            let t = entries[i].text.clone();
            proof {
                assert(is_first_with_id(entries@, id@, i as int) && t@ == entries@[i as int].text@);
            }
            return Ok(t);
        }
        i = i + 1;
    }
    proof {
        if entry_ids(entries@).contains(id@) {
            let k = choose|k: int| 0 <= k < n && entry_ids(entries@)[k] == id@;
            assert(entries@[k].id@ == id@);
        }
    }
    Err(String::from_str("History entry not found"))
}

/// The entries left after clearing the history: none.
pub fn clear() -> (cleared: Vec<HistoryEntry>)
    ensures
        cleared@.len() == 0,
{
    Vec::new()
}

/// Saving keeps ids distinct: when the listed entries have distinct ids, so
/// does the history after saving a transcription.
pub proof fn lemma_save_keeps_ids_distinct(
    entries: Seq<HistoryEntry>,
    saved: Seq<HistoryEntry>,
    now_ms: u64,
)
    requires
        entry_ids(entries).no_duplicates(),
        1 <= saved.len() <= entries.len() + 1,
        saved[0].id@ == fresh_id(now_ms, entry_ids(entries)),
        saved.drop_first() == entries.take(saved.len() - 1),
    ensures
        entry_ids(saved).no_duplicates(),
{
    let ids = entry_ids(entries);
    lemma_fresh_id_is_free(now_ms, ids);
    let out = entry_ids(saved);
    assert forall|k: int| 1 <= k < saved.len() implies #[trigger] saved[k] == entries[k - 1] by {
        assert(saved[k] == saved.drop_first()[k - 1]);
    }
    assert forall|i: int, j: int| 0 <= i < out.len() && 0 <= j < out.len() && i != j
        implies out[i] != out[j] by {
        if i > 0 && j > 0 {
            assert(saved[i] == entries[i - 1]);
            assert(saved[j] == entries[j - 1]);
            assert(ids[i - 1] == out[i] && ids[j - 1] == out[j]);
        } else if i == 0 {
            assert(saved[j] == entries[j - 1]);
            assert(ids[j - 1] == out[j]);
        } else {
            assert(saved[i] == entries[i - 1]);
            assert(ids[i - 1] == out[i]);
        }
    }
}

} // verus!
