//! Newest-first ordering of timestamped entries, stable among equal timestamps.
use vstd::prelude::*;

verus! {

/// Places entry `x` before the first entry of `order` whose key is smaller
/// than its own, so that it follows every entry with an equal or larger key.
pub open spec fn insert_newest_first(order: Seq<usize>, keys: Seq<u64>, x: usize) -> Seq<usize>
    decreases order.len(),
{
    if order.len() == 0 {
        seq![x]
    } else if keys[order[0] as int] < keys[x as int] {
        seq![x] + order
    } else {
        seq![order[0]] + insert_newest_first(order.drop_first(), keys, x)
    }
}

/// The indices `0..n` of `keys` ordered by key, largest first; entries with equal
/// keys keep their relative order.
pub open spec fn newest_first(keys: Seq<u64>, n: nat) -> Seq<usize>
    decreases n,
{
    if n == 0 {
        Seq::empty()
    } else {
        insert_newest_first(newest_first(keys, (n - 1) as nat), keys, (n - 1) as usize)
    }
}

proof fn lemma_insert_at(order: Seq<usize>, keys: Seq<u64>, x: usize, k: int)
    requires
        0 <= k <= order.len(),
        forall|j: int| 0 <= j < k ==> keys[order[j] as int] >= keys[x as int],
        k < order.len() ==> keys[order[k] as int] < keys[x as int],
    ensures
        insert_newest_first(order, keys, x) == order.insert(k, x),
    decreases k,
{
    if k == 0 {
        assert(order.insert(0, x) =~= seq![x] + order);
    } else {
        let rest = order.drop_first();
        assert forall|j: int| 0 <= j < k - 1 implies keys[rest[j] as int] >= keys[x as int] by {
            assert(rest[j] == order[j + 1]);
        }
        lemma_insert_at(rest, keys, x, k - 1);
        assert(order.insert(k, x) =~= seq![order[0]] + rest.insert(k - 1, x));
    }
}

pub proof fn lemma_insert_len(order: Seq<usize>, keys: Seq<u64>, x: usize)
    ensures
        insert_newest_first(order, keys, x).len() == order.len() + 1,
    decreases order.len(),
{
    if order.len() > 0 && keys[order[0] as int] >= keys[x as int] {
        lemma_insert_len(order.drop_first(), keys, x);
    }
}

pub proof fn lemma_newest_first_len(keys: Seq<u64>, n: nat)
    ensures
        newest_first(keys, n).len() == n,
    decreases n,
{
    if n > 0 {
        lemma_newest_first_len(keys, (n - 1) as nat);
        lemma_insert_len(newest_first(keys, (n - 1) as nat), keys, (n - 1) as usize);
    }
}

/// The permutation of the indices of `keys` that lists the largest key first,
/// keeping the order of insertion among equal keys.
pub fn newest_first_order(keys: &Vec<u64>) -> (r: Vec<usize>)
    ensures
        r@ == newest_first(keys@, keys@.len()),
        r@.len() == keys@.len(),
        forall|i: int| 0 <= i < r@.len() ==> r@[i] < keys@.len(),
{
    let mut order: Vec<usize> = Vec::new();
    let mut n: usize = 0;
    while n < keys.len()
        invariant
            n <= keys@.len(),
            order@ == newest_first(keys@, n as nat),
            forall|i: int| 0 <= i < order@.len() ==> order@[i] < n,
        decreases keys@.len() - n,
    {
        let mut k: usize = 0;
        while k < order.len() && keys[order[k]] >= keys[n]
            invariant
                n < keys@.len(),
                k <= order@.len(),
                forall|i: int| 0 <= i < order@.len() ==> order@[i] < n,
                forall|j: int| 0 <= j < k ==> keys@[order@[j] as int] >= keys@[n as int],
            decreases order@.len() - k,
        {
            k = k + 1;
        }
        proof {
            lemma_insert_at(order@, keys@, n, k as int);
        }
        let ghost before = order@;
        order.insert(k, n);
        assert(order@ == before.insert(k as int, n));
        n = n + 1;
        assert forall|i: int| 0 <= i < order@.len() implies order@[i] < n by {
            if i < k {
                assert(order@[i] == before[i]);
            } else if i > k {
                assert(order@[i] == before[i - 1]);
            }
        }
    }
    proof {
        lemma_newest_first_len(keys@, keys@.len());
    }
    order
}

/// Each listed entry has a key at least as large as the entry after it.
pub open spec fn listed_newest_first(order: Seq<usize>, keys: Seq<u64>) -> bool {
    forall|i: int| 0 <= i < order.len() - 1 ==> keys[order[i] as int] >= keys[#[trigger] order[i + 1] as int]
}

proof fn lemma_insert_keeps_listing(order: Seq<usize>, keys: Seq<u64>, x: usize)
    requires
        listed_newest_first(order, keys),
    ensures
        listed_newest_first(insert_newest_first(order, keys, x), keys),
        insert_newest_first(order, keys, x).len() > 0,
        insert_newest_first(order, keys, x)[0] == x || (order.len() > 0
            && insert_newest_first(order, keys, x)[0] == order[0]),
    decreases order.len(),
{
    let r = insert_newest_first(order, keys, x);
    if order.len() == 0 {
    } else if keys[order[0] as int] < keys[x as int] {
        assert forall|i: int| 0 <= i < r.len() - 1 implies keys[r[i] as int] >= keys[#[trigger] r[i + 1] as int] by {
            assert(r == seq![x] + order);
            if i > 0 {
                let j = i - 1;
                assert(r[i] == order[j]);
                assert(r[i + 1] == order[j + 1]);
                assert(keys[order[j] as int] >= keys[order[j + 1] as int]);
            } else {
                assert(r[0] == x);
                assert(r[1] == order[0]);
            }
        }
    } else {
        let rest = order.drop_first();
        assert forall|i: int| 0 <= i < rest.len() - 1 implies keys[rest[i] as int] >= keys[#[trigger] rest[i + 1] as int] by {
            assert(rest[i] == order[i + 1]);
            assert(rest[i + 1] == order[i + 2]);
        }
        lemma_insert_keeps_listing(rest, keys, x);
        let tail = insert_newest_first(rest, keys, x);
        assert forall|i: int| 0 <= i < r.len() - 1 implies keys[r[i] as int] >= keys[#[trigger] r[i + 1] as int] by {
            if i == 0 {
                assert(r[1] == tail[0]);
                if rest.len() > 0 {
                    assert(rest[0] == order[1]);
                }
            } else {
                assert(r[i] == tail[i - 1]);
                assert(r[i + 1] == tail[i]);
            }
        }
    }
}

/// The newest-first order never lists an entry before one with a larger key.
pub proof fn lemma_newest_first_sorted(keys: Seq<u64>, n: nat)
    ensures
        listed_newest_first(newest_first(keys, n), keys),
    decreases n,
{
    if n > 0 {
        lemma_newest_first_sorted(keys, (n - 1) as nat);
        lemma_insert_keeps_listing(newest_first(keys, (n - 1) as nat), keys, (n - 1) as usize);
    }
}

} // verus!
