use vstd::prelude::*;

verus! {

/// The pairs whose first member is `i`: `(i, j)` for each `j` from `i + 1`
/// up to `n - 1`.
pub open spec fn pair_row(i: nat, n: nat) -> Seq<(usize, usize)> {
    Seq::new(
        if i + 1 <= n { (n - i - 1) as nat } else { 0nat },
        |k: int| (i as usize, (i + 1 + k) as usize),
    )
}

/// The rows of the first `i` members, in order.
pub open spec fn pairs_upto(i: nat, n: nat) -> Seq<(usize, usize)>
    decreases i,
{
    if i == 0 {
        Seq::empty()
    } else {
        pairs_upto((i - 1) as nat, n) + pair_row((i - 1) as nat, n)
    }
}

/// Every unordered pair of `n` ephemerides, as index pairs `(i, j)` with
/// `i < j`, ordered by `i` then `j`.
pub open spec fn screening_pairs_of(n: nat) -> Seq<(usize, usize)> {
    pairs_upto(n, n)
}

/// The index pairs to screen among `n` ephemerides (see
/// `screening_pairs_of`). Each pair is independent of the others.
pub fn screening_pairs(n: usize) -> (r: Vec<(usize, usize)>)
    ensures
        r@ == screening_pairs_of(n as nat),
{
    let mut r: Vec<(usize, usize)> = Vec::new();
    let mut i: usize = 0;
    while i < n
        invariant
            i <= n,
            r@ == pairs_upto(i as nat, n as nat),
        decreases n - i,
    {
        let ghost before = r@;
        let mut j: usize = i + 1;
        while j < n
            invariant
                i < n,
                i + 1 <= j <= n,
                r@ == before + pair_row(i as nat, n as nat).subrange(0, j - i - 1),
            decreases n - j,
        {
            r.push((i, j));
            assert(r@ =~= before + pair_row(i as nat, n as nat).subrange(0, j + 1 - i - 1));
            j = j + 1;
        }
        assert(pair_row(i as nat, n as nat).subrange(0, n - i - 1) =~= pair_row(
            i as nat,
            n as nat,
        ));
        i = i + 1;
    }
    r
}

proof fn lemma_pairs_upto_members(i: nat, n: nat)
    requires
        i <= n,
        n <= usize::MAX,
    ensures
        forall|k: int|
            0 <= k < pairs_upto(i, n).len() ==> {
                let p = #[trigger] pairs_upto(i, n)[k];
                p.0 < i && p.0 < p.1 && p.1 < n
            },
        forall|a: usize, b: usize|
            a < i && a < b && b < n ==> #[trigger] pairs_upto(i, n).contains((a, b)),
        pairs_upto(i, n).no_duplicates(),
    decreases i,
{
    if i > 0 {
        let prev = pairs_upto((i - 1) as nat, n);
        let row = pair_row((i - 1) as nat, n);
        lemma_pairs_upto_members((i - 1) as nat, n);
        let all = prev + row;
        assert(pairs_upto(i, n) == all);
        assert forall|k: int| 0 <= k < all.len() implies {
            let p = #[trigger] all[k];
            p.0 < i && p.0 < p.1 && p.1 < n
        } by {
            if k >= prev.len() {
                assert(all[k] == row[k - prev.len()]);
                assert(row[k - prev.len()].0 == (i - 1) as usize);
                assert(row[k - prev.len()].1 == (i + k - prev.len()) as usize);
            } else {
                assert(all[k] == prev[k]);
            }
        }
        assert forall|a: usize, b: usize| a < i && a < b && b < n implies #[trigger] all.contains(
            (a, b),
        ) by {
            if a < i - 1 {
                assert(prev.contains((a, b)));
                let k = choose|k: int| 0 <= k < prev.len() && prev[k] == (a, b);
                assert(all[k] == (a, b));
            } else {
                let k = b - i;
                assert(row[k] == (a, b));
                assert(all[prev.len() + k] == (a, b));
            }
        }
        assert forall|x: int, y: int| 0 <= x < all.len() && 0 <= y < all.len() && x != y implies all[x]
            != all[y] by {
            if x < prev.len() && y < prev.len() {
                assert(all[x] == prev[x] && all[y] == prev[y]);
            } else if x >= prev.len() && y >= prev.len() {
                assert(all[x] == row[x - prev.len()] && all[y] == row[y - prev.len()]);
            } else if x < prev.len() {
                assert(all[x] == prev[x] && all[y] == row[y - prev.len()]);
                assert(prev[x].0 < i - 1);
            } else {
                assert(all[y] == prev[y] && all[x] == row[x - prev.len()]);
                assert(prev[y].0 < i - 1);
            }
        }
    }
}

/// The screening schedule holds each unordered pair of distinct ephemerides
/// exactly once, and nothing else.
pub proof fn lemma_screening_covers_each_pair_once(n: usize)
    ensures
        forall|a: usize, b: usize|
            #[trigger] screening_pairs_of(n as nat).contains((a, b)) <==> (a < b && b < n),
        screening_pairs_of(n as nat).no_duplicates(),
{
    let n = n as nat;
    lemma_pairs_upto_members(n, n);
    assert forall|a: usize, b: usize| #[trigger]
        screening_pairs_of(n).contains((a, b)) implies (a < b && b < n) by {
        let k = choose|k: int|
            0 <= k < screening_pairs_of(n).len() && screening_pairs_of(n)[k] == (a, b);
        assert(pairs_upto(n, n)[k] == (a, b));
    }
}

/// Whether entry `x` comes before entry `y` in a report: by primary id, then
/// secondary id, then the order in which they were found.
pub open spec fn reported_before(keys: Seq<(i32, i32)>, x: usize, y: usize) -> bool {
    let kx = keys[x as int];
    let ky = keys[y as int];
    kx.0 < ky.0 || (kx.0 == ky.0 && kx.1 < ky.1) || (kx == ky && x < y)
}

/// `order` lists each of the `n` entries once.
pub open spec fn is_index_permutation(order: Seq<usize>, n: nat) -> bool {
    &&& order.len() == n
    &&& order.no_duplicates()
    &&& forall|i: int| 0 <= i < order.len() ==> (#[trigger] order[i]) < n
}

/// `order` lists entries in report order.
pub open spec fn is_report_ordered(keys: Seq<(i32, i32)>, order: Seq<usize>) -> bool {
    forall|i: int, j: int|
        0 <= i < j < order.len() ==> reported_before(keys, #[trigger] order[i], #[trigger] order[j])
}

/// The order in which to list close approaches keyed by (primary id,
/// secondary id), so that a report reads the same whatever order the
/// parallel screening found them in: a stable sort by key.
pub fn report_order(keys: &Vec<(i32, i32)>) -> (r: Vec<usize>)
    ensures
        is_index_permutation(r@, keys@.len()),
        is_report_ordered(keys@, r@),
{
    let mut r: Vec<usize> = Vec::new();
    let mut i: usize = 0;
    while i < keys.len()
        invariant
            i <= keys@.len(),
            is_index_permutation(r@, i as nat),
            is_report_ordered(keys@, r@),
        decreases keys@.len() - i,
    {
        let k = keys[i];
        let mut p: usize = 0;
        while p < r.len() && !(k.0 < keys[r[p]].0 || (k.0 == keys[r[p]].0 && k.1 < keys[r[p]].1))
            invariant
                i < keys@.len(),
                k == keys@[i as int],
                p <= r@.len(),
                is_index_permutation(r@, i as nat),
                forall|q: int| 0 <= q < p ==> reported_before(keys@, #[trigger] r@[q], i),
            decreases r@.len() - p,
        {
            assert(r@[p as int] < i);
            p = p + 1;
        }
        let ghost before = r@;
        proof {
            assert forall|q: int| p <= q < before.len() implies reported_before(
                keys@,
                i,
                #[trigger] before[q],
            ) by {
                if q > p {
                    assert(reported_before(keys@, before[p as int], before[q]));
                }
            }
        }
        r.insert(p, i);
        proof {
            assert forall|a: int| 0 <= a < r@.len() implies (#[trigger] r@[a]) < i + 1 by {
                if a < p {
                    assert(r@[a] == before[a]);
                } else if a > p {
                    assert(r@[a] == before[a - 1]);
                }
            }
            assert forall|a: int, b: int| 0 <= a < r@.len() && 0 <= b < r@.len() && a != b implies r@[a]
                != r@[b] by {
                if a != p && b != p {
                    let a0 = if a < p { a } else { a - 1 };
                    let b0 = if b < p { b } else { b - 1 };
                    assert(r@[a] == before[a0] && r@[b] == before[b0]);
                } else if a == p {
                    let b0 = if b < p { b } else { b - 1 };
                    assert(r@[b] == before[b0]);
                } else {
                    let a0 = if a < p { a } else { a - 1 };
                    assert(r@[a] == before[a0]);
                }
            }
            assert forall|a: int, b: int| 0 <= a < b < r@.len() implies reported_before(
                keys@,
                #[trigger] r@[a],
                #[trigger] r@[b],
            ) by {
                if b < p {
                    assert(r@[a] == before[a] && r@[b] == before[b]);
                } else if a > p {
                    assert(r@[a] == before[a - 1] && r@[b] == before[b - 1]);
                } else if a == p {
                    assert(r@[b] == before[b - 1]);
                } else if b == p {
                    assert(r@[a] == before[a]);
                } else {
                    assert(r@[a] == before[a] && r@[b] == before[b - 1]);
                }
            }
        }
        i = i + 1;
    }
    r
}

} // verus!
