//! The object scan of one scanline: which OAM entries a line sees (in OAM order, at
//! most ten), their ranking by X then OAM index, and the mode-3 cost that the DMG
//! pays for fetching them.
use vstd::prelude::*;

verus! {

/// Pair order used to rank objects: by X, then by OAM index.
pub open spec fn pair_le(a: (u8, u8), b: (u8, u8)) -> bool {
    a.0 < b.0 || (a.0 == b.0 && a.1 <= b.1)
}

/// `e` inserted into `t` from the back: it moves left past every entry that does not
/// rank at or before it.
pub open spec fn insert_sorted(t: Seq<(u8, u8)>, e: (u8, u8)) -> Seq<(u8, u8)>
    decreases t.len(),
{
    if t.len() == 0 {
        seq![e]
    } else if pair_le(t.last(), e) {
        t.push(e)
    } else {
        insert_sorted(t.drop_last(), e).push(t.last())
    }
}

/// `s` ranked by `pair_le` (insertion sort, so equal pairs keep their order).
pub open spec fn sorted_pairs(s: Seq<(u8, u8)>) -> Seq<(u8, u8)>
    decreases s.len(),
{
    if s.len() == 0 {
        s
    } else {
        insert_sorted(sorted_pairs(s.drop_last()), s.last())
    }
}

pub proof fn lemma_insert_sorted_len(t: Seq<(u8, u8)>, e: (u8, u8))
    ensures
        insert_sorted(t, e).len() == t.len() + 1,
    decreases t.len(),
{
    if t.len() > 0 && !pair_le(t.last(), e) {
        lemma_insert_sorted_len(t.drop_last(), e);
    }
}

pub proof fn lemma_sorted_pairs_len(s: Seq<(u8, u8)>)
    ensures
        sorted_pairs(s).len() == s.len(),
    decreases s.len(),
{
    if s.len() > 0 {
        lemma_sorted_pairs_len(s.drop_last());
        lemma_insert_sorted_len(sorted_pairs(s.drop_last()), s.last());
    }
}

/// `s` is ranked: X never decreases, and objects with equal X come by OAM index.
pub open spec fn is_ranked(s: Seq<(u8, u8)>) -> bool {
    forall|i: int, j: int| 0 <= i < j < s.len() ==> pair_le(#[trigger] s[i], #[trigger] s[j])
}

proof fn lemma_insert_sorted_ranks(t: Seq<(u8, u8)>, e: (u8, u8))
    requires
        is_ranked(t),
    ensures
        is_ranked(insert_sorted(t, e)),
        insert_sorted(t, e).to_multiset() =~= t.to_multiset().insert(e),
    decreases t.len(),
{
    broadcast use vstd::seq_lib::group_to_multiset_ensures;
    broadcast use vstd::multiset::group_multiset_axioms;

    if t.len() == 0 {
        assert(seq![e] =~= t.push(e));
    } else if pair_le(t.last(), e) {
        let r = t.push(e);
        assert forall|i: int, j: int| 0 <= i < j < r.len() implies pair_le(
            #[trigger] r[i],
            #[trigger] r[j],
        ) by {
            if j == t.len() {
                if i < t.len() - 1 {
                    assert(pair_le(t[i], t[t.len() - 1]));
                }
            }
        }
    } else {
        let u = t.drop_last();
        let l = t.last();
        assert(t =~= u.push(l));
        lemma_insert_sorted_ranks(u, e);
        let q = insert_sorted(u, e);
        let r = q.push(l);
        assert forall|i: int, j: int| 0 <= i < j < r.len() implies pair_le(
            #[trigger] r[i],
            #[trigger] r[j],
        ) by {
            if j == q.len() {
                lemma_insert_sorted_len(u, e);
                assert(q.contains(q[i]));
                assert(q.to_multiset().count(q[i]) > 0);
                if q[i] != e {
                    assert(u.to_multiset().count(q[i]) > 0);
                    assert(u.contains(q[i]));
                    let m = choose|m: int| 0 <= m < u.len() && u[m] == q[i];
                    assert(t[m] == u[m]);
                }
            }
        }
        assert(r.to_multiset() =~= t.to_multiset().insert(e));
    }
}

/// Ranking objects reorders them and nothing more: the ranked list is sorted by X, then
/// OAM index, and holds exactly the objects it was given.
pub proof fn lemma_sorted_pairs_ranks(s: Seq<(u8, u8)>)
    ensures
        is_ranked(sorted_pairs(s)),
        sorted_pairs(s).to_multiset() =~= s.to_multiset(),
    decreases s.len(),
{
    broadcast use vstd::seq_lib::group_to_multiset_ensures;

    if s.len() > 0 {
        lemma_sorted_pairs_ranks(s.drop_last());
        lemma_insert_sorted_ranks(sorted_pairs(s.drop_last()), s.last());
        assert(s =~= s.drop_last().push(s.last()));
    }
}

/// Every one of the first `count` pairs of `a` is one of the first `count` of `b`.
pub open spec fn drawn_from(a: Seq<(u8, u8)>, b: Seq<(u8, u8)>, count: int) -> bool {
    forall|k: int| 0 <= k < count ==> #[trigger] is_drawn(a[k], b, count)
}

/// `x` is one of the first `count` entries of `b`.
pub open spec fn is_drawn(x: (u8, u8), b: Seq<(u8, u8)>, count: int) -> bool {
    exists|m: int| 0 <= m < count && x == b[m]
}

proof fn lemma_drawn_from_itself(a: Seq<(u8, u8)>, count: int)
    ensures
        drawn_from(a, a, count),
{
    assert forall|k: int| 0 <= k < count implies #[trigger] is_drawn(a[k], a, count) by {
        assert(a[k] == a[k]);
    }
}

fn pair_le_exec(a: (u8, u8), b: (u8, u8)) -> (r: bool)
    ensures
        r == pair_le(a, b),
{
    a.0 < b.0 || (a.0 == b.0 && a.1 <= b.1)
}

/// Sorts the first `count` pairs by X, then OAM index; the rest stay as they are.
pub fn sort_pairs(a: &mut [(u8, u8); 10], count: usize)
    requires
        count <= 10,
    ensures
        final(a)@.take(count as int) == sorted_pairs(old(a)@.take(count as int)),
        drawn_from(final(a)@, old(a)@, count as int),
{
    proof {
        lemma_drawn_from_itself(a@, count as int);
        assert(a@.take(0) =~= Seq::<(u8, u8)>::empty());
        assert(old(a)@.take(0) =~= Seq::<(u8, u8)>::empty());
    }
    let mut i: usize = 0;
    while i < count
        invariant
            i <= count <= 10,
            a@.take(i as int) == sorted_pairs(old(a)@.take(i as int)),
            forall|k: int| i <= k < 10 ==> #[trigger] a@[k] == old(a)@[k],
            drawn_from(a@, old(a)@, count as int),
        decreases count - i,
    {
        let ghost a0 = a@;
        let e = a[i];
        let mut j = i;
        proof {
            assert(a@.take(i as int + 1) =~= a0.take(j as int) + seq![e] + a0.subrange(
                j as int,
                i as int,
            ));
            assert(a0.subrange(i as int, i as int) =~= Seq::<(u8, u8)>::empty());
            assert(insert_sorted(a0.take(i as int), e) =~= insert_sorted(a0.take(j as int), e)
                + a0.subrange(j as int, i as int));
        }
        while j > 0 && !pair_le_exec(a[j - 1], e)
            invariant
                j <= i < count <= 10,
                a0.len() == 10,
                e == a0[i as int],
                a@.take(i as int + 1) == a0.take(j as int) + seq![e] + a0.subrange(
                    j as int,
                    i as int,
                ),
                insert_sorted(a0.take(i as int), e) == insert_sorted(a0.take(j as int), e)
                    + a0.subrange(j as int, i as int),
                forall|k: int| i < k < 10 ==> #[trigger] a@[k] == a0[k],
                drawn_from(a@, old(a)@, count as int),
            decreases j,
        {
            let ghost before = a@;
            assert(before[j - 1] == before.take(i as int + 1)[j - 1]);
            assert(before[j as int] == before.take(i as int + 1)[j as int]);
            let prev = a[j - 1];
            let cur = a[j];
            a[j - 1] = cur;
            a[j] = prev;
            proof {
                assert forall|k: int| 0 <= k < count implies #[trigger] is_drawn(
                    a@[k],
                    old(a)@,
                    count as int,
                ) by {
                    if k == j - 1 {
                        assert(a@[k] == before[j as int]);
                    } else if k == j {
                        assert(a@[k] == before[j - 1]);
                    } else {
                        assert(a@[k] == before[k]);
                    }
                }
                assert(prev == a0[j - 1]);
                assert(cur == e);
                let lhs = a@.take(i as int + 1);
                let rhs = a0.take(j - 1) + seq![e] + a0.subrange(j - 1, i as int);
                let old_rhs = a0.take(j as int) + seq![e] + a0.subrange(j as int, i as int);
                assert forall|k: int| 0 <= k <= i implies lhs[k] == rhs[k] by {
                    assert(before.take(i as int + 1)[k] == old_rhs[k]);
                    if k < j - 1 {
                        assert(lhs[k] == before[k]);
                    } else if k > j {
                        assert(lhs[k] == before[k]);
                        assert(old_rhs[k] == a0[k - 1]);
                    }
                }
                assert(lhs =~= rhs);
                let t = a0.take(j as int);
                assert(t.drop_last() =~= a0.take(j - 1));
                assert(t.last() == a0[j - 1]);
                assert(insert_sorted(t, e) == insert_sorted(a0.take(j - 1), e).push(a0[j - 1]));
                assert(insert_sorted(a0.take(j - 1), e).push(a0[j - 1]) + a0.subrange(
                    j as int,
                    i as int,
                ) =~= insert_sorted(a0.take(j - 1), e) + a0.subrange(j - 1, i as int));
            }
            j = j - 1;
        }
        proof {
            let t = a0.take(j as int);
            if j == 0 {
                assert(t =~= Seq::<(u8, u8)>::empty());
                assert(insert_sorted(t, e) == seq![e]);
            } else {
                assert(a@[j - 1] == a@.take(i as int + 1)[j - 1]);
                assert(t.last() == a0[j - 1]);
                assert(insert_sorted(t, e) == t.push(e));
            }
            assert(a@.take(i as int + 1) =~= insert_sorted(a0.take(i as int), e));
            let o = old(a)@.take(i as int + 1);
            assert(o.drop_last() =~= old(a)@.take(i as int));
            assert(o.last() == e);
            assert(a0.take(i as int) == a0.take(i as int));
        }
        i = i + 1;
    }
}

/// Object height in rows: 16 with LCDC bit 2 set, else 8.
pub open spec fn obj_height(lcdc: u8) -> int {
    if lcdc & 0x04 != 0 {
        16
    } else {
        8
    }
}

/// OAM entry `k` covers line `ly` for objects `height` rows tall, and its X is in
/// `min_x..168`.
pub open spec fn covers_line(oam: Seq<u8>, k: int, ly: u8, height: int, min_x: u8) -> bool {
    &&& min_x <= oam[4 * k + 1] < 168
    &&& oam[4 * k] - 16 <= ly < oam[4 * k] - 16 + height
}

/// The first ten of OAM entries `0..n` that cover line `ly`, as (X, OAM index) pairs in
/// OAM order.
pub open spec fn line_objects(oam: Seq<u8>, ly: u8, height: int, min_x: u8, n: int) -> Seq<(u8, u8)>
    decreases n,
{
    if n <= 0 {
        Seq::empty()
    } else {
        let prev = line_objects(oam, ly, height, min_x, n - 1);
        if covers_line(oam, n - 1, ly, height, min_x) && prev.len() < 10 {
            prev.push((oam[4 * (n - 1) + 1], (n - 1) as u8))
        } else {
            prev
        }
    }
}

pub proof fn lemma_line_objects_len(oam: Seq<u8>, ly: u8, height: int, min_x: u8, n: int)
    ensures
        line_objects(oam, ly, height, min_x, n).len() <= 10,
    decreases n,
{
    if n > 0 {
        lemma_line_objects_len(oam, ly, height, min_x, n - 1);
    }
}

/// Once ten objects are found, later OAM entries change nothing.
pub proof fn lemma_line_objects_full(oam: Seq<u8>, ly: u8, height: int, min_x: u8, n: int, m: int)
    requires
        0 <= n <= m,
        line_objects(oam, ly, height, min_x, n).len() == 10,
    ensures
        line_objects(oam, ly, height, min_x, m) == line_objects(oam, ly, height, min_x, n),
    decreases m - n,
{
    if m > n {
        lemma_line_objects_full(oam, ly, height, min_x, n, m - 1);
    }
}

/// Extra mode-3 dots for the first object of a fetch session, by X mod 8.
pub open spec fn startup_adjust(x_mod: u8) -> int {
    if x_mod <= 1 {
        2
    } else if x_mod >= 4 {
        -2
    } else {
        0
    }
}

/// Dots that ending a fetch session costs, by the last object's X mod 8.
pub open spec fn shutdown_cost(x_mod: u8) -> int {
    if x_mod == 0 || x_mod == 2 || x_mod == 4 {
        3
    } else {
        2
    }
}

/// Distance from X `a` to X `b`, counted modulo 256.
pub open spec fn x_gap(a: u8, b: u8) -> int {
    if b >= a {
        b - a
    } else {
        b - a + 256
    }
}

/// The index of the last object of the fetch session that goes on at `j`: a session
/// takes the next object while it is less than eight pixels further right.
pub open spec fn session_end(s: Seq<(u8, u8)>, j: int) -> int
    decreases s.len() - j,
{
    if 0 <= j && j + 1 < s.len() && x_gap(s[j].0, s[j + 1].0) < 8 {
        session_end(s, j + 1)
    } else {
        j
    }
}

pub proof fn lemma_session_end_bounds(s: Seq<(u8, u8)>, j: int)
    requires
        0 <= j < s.len(),
    ensures
        j <= session_end(s, j) < s.len(),
    decreases s.len() - j,
{
    if j + 1 < s.len() && x_gap(s[j].0, s[j + 1].0) < 8 {
        lemma_session_end_bounds(s, j + 1);
    }
}

/// The object cost of the ranked objects `s` from index `i` on, session by session.
pub open spec fn penalty_from(s: Seq<(u8, u8)>, i: int) -> int
    decreases s.len() - i,
{
    if i < 0 || i >= s.len() {
        0
    } else {
        proof {
            lemma_session_end_bounds(s, i);
        }
        let j = session_end(s, i);
        let shutdown = if j + 1 < s.len() {
            shutdown_cost(s[j].0 % 8)
        } else {
            0
        };
        6 + startup_adjust(s[i].0 % 8) + 6 * (j - i) + shutdown + penalty_from(s, j + 1)
    }
}

pub proof fn lemma_penalty_bound(s: Seq<(u8, u8)>, i: int)
    requires
        0 <= i <= s.len(),
    ensures
        0 <= penalty_from(s, i) <= 17 * (s.len() - i),
    decreases s.len() - i,
{
    if i < s.len() {
        lemma_session_end_bounds(s, i);
        lemma_penalty_bound(s, session_end(s, i) + 1);
    }
}

/// The mode-3 object cost of line `ly`: nothing with objects off, else the session cost
/// of the line's objects (X 0 included) ranked left to right.
pub open spec fn obj_penalty(oam: Seq<u8>, lcdc: u8, ly: u8) -> int {
    if lcdc & 0x02 == 0 {
        0
    } else {
        penalty_from(sorted_pairs(line_objects(oam, ly, obj_height(lcdc), 0, 40)), 0)
    }
}

pub proof fn lemma_obj_penalty_bound(oam: Seq<u8>, lcdc: u8, ly: u8)
    ensures
        0 <= obj_penalty(oam, lcdc, ly) <= 170,
{
    let s = line_objects(oam, ly, obj_height(lcdc), 0, 40);
    lemma_line_objects_len(oam, ly, obj_height(lcdc), 0, 40);
    lemma_sorted_pairs_len(s);
    lemma_penalty_bound(sorted_pairs(s), 0);
}

} // verus!
