use vstd::prelude::*;
use crate::error::JobError;

verus! {

/// The input position that output position `k` of an `n`-page document takes:
/// even positions walk the front sides forward, odd positions walk the back
/// sides from the last page down.
pub open spec fn source_index(n: int, k: int) -> int {
    if k % 2 == 0 {
        k / 2
    } else {
        n - 1 - k / 2
    }
}

/// The output position at which input page `j` of an `n`-page document lands.
pub open spec fn target_index(n: int, j: int) -> int {
    if j < n / 2 {
        2 * j
    } else {
        2 * (n - 1 - j) + 1
    }
}

/// The pages in front/back reading order.
pub open spec fn interleaved<T>(pages: Seq<T>) -> Seq<T> {
    Seq::new(pages.len(), |k: int| pages[source_index(pages.len() as int, k)])
}

/// The scanned order recovered from pages in reading order.
pub open spec fn deinterleaved<T>(pages: Seq<T>) -> Seq<T> {
    Seq::new(pages.len(), |j: int| pages[target_index(pages.len() as int, j)])
}

/// The rejection that a page count gets, if any: none first, then odd counts.
pub open spec fn count_rejection(n: nat) -> Option<JobError> {
    if n == 0 {
        Some(JobError::EmptyDocument)
    } else if n % 2 == 1 {
        Some(JobError::OddPageCount(n as usize))
    } else {
        None
    }
}

/// Each output position draws from a distinct input position, and every input
/// position is drawn from: `target_index` undoes `source_index` both ways.
pub proof fn lemma_index_maps_inverse(n: int)
    requires
        n >= 2,
        n % 2 == 0,
    ensures
        forall|k: int| 0 <= k < n ==> {
            let j = #[trigger] source_index(n, k);
            0 <= j < n && target_index(n, j) == k
        },
        forall|j: int| 0 <= j < n ==> {
            let k = #[trigger] target_index(n, j);
            0 <= k < n && source_index(n, k) == j
        },
{
}

/// For every even page count of at least two, reordering keeps the length,
/// holds exactly the input pages, and keeps distinct pages distinct: the
/// output is a permutation of the input that follows the index mapping.
pub proof fn law_reorder_is_permutation<T>(pages: Seq<T>)
    requires
        pages.len() >= 2,
        pages.len() % 2 == 0,
    ensures
        interleaved(pages).len() == pages.len(),
        forall|k: int| 0 <= k < pages.len() ==>
            #[trigger] interleaved(pages)[k] == pages[source_index(pages.len() as int, k)],
        interleaved(pages).to_set() == pages.to_set(),
        pages.no_duplicates() ==> interleaved(pages).no_duplicates(),
{
    let n = pages.len() as int;
    let out = interleaved(pages);
    lemma_index_maps_inverse(n);
    assert forall|x: T| out.to_set().contains(x) <==> pages.to_set().contains(x) by {
        if out.to_set().contains(x) {
            let k = choose|k: int| 0 <= k < n && out[k] == x;
            assert(pages[source_index(n, k)] == x);
        }
        if pages.to_set().contains(x) {
            let j = choose|j: int| 0 <= j < n && pages[j] == x;
            assert(out[target_index(n, j)] == x);
        }
    }
    assert(out.to_set() =~= pages.to_set());
    if pages.no_duplicates() {
        assert forall|a: int, b: int| 0 <= a < n && 0 <= b < n && a != b implies out[a] != out[b] by {
            assert(source_index(n, a) != source_index(n, b)) by {
                assert(target_index(n, source_index(n, a)) == a);
                assert(target_index(n, source_index(n, b)) == b);
            }
        }
    }
}

/// Reordering is undone by the inverse mapping: taking each input page back
/// from the output position where it landed gives the input again.
pub proof fn law_deinterleave_restores<T>(pages: Seq<T>)
    requires
        pages.len() >= 2,
        pages.len() % 2 == 0,
    ensures
        deinterleaved(interleaved(pages)) == pages,
        interleaved(deinterleaved(pages)) == pages,
{
    lemma_index_maps_inverse(pages.len() as int);
    assert(deinterleaved(interleaved(pages)) =~= pages);
    assert(interleaved(deinterleaved(pages)) =~= pages);
}

/// Reordering is not idempotent: for more than two distinct pages, reordering
/// the output again does not give back the input (its second page is the
/// first page of the back half).
pub proof fn law_reorder_twice_differs<T>(pages: Seq<T>)
    requires
        pages.len() > 2,
        pages.len() % 2 == 0,
        pages.no_duplicates(),
    ensures
        interleaved(interleaved(pages))[1] == pages[pages.len() as int / 2],
        interleaved(interleaved(pages)) != pages,
{
    let n = pages.len() as int;
    assert(source_index(n, 1) == n - 1);
    assert(source_index(n, n - 1) == n / 2);
    assert(interleaved(interleaved(pages))[1] == pages[n / 2]);
    assert(pages[n / 2] != pages[1]);
}

/// The order in which the pages of an `n`-page document are to be written:
/// entry `k` is the input position of output page `k`.
pub fn reorder_plan(n: usize) -> (r: Result<Vec<usize>, JobError>)
    ensures
        match count_rejection(n as nat) {
            Some(e) => r == Err::<Vec<usize>, JobError>(e),
            None => r is Ok && r->Ok_0@.len() == n && forall|k: int|
                0 <= k < n ==> #[trigger] r->Ok_0@[k] as int == source_index(n as int, k),
        },
{
    if n == 0 {
        return Err(JobError::EmptyDocument);
    }
    if n % 2 != 0 {
        return Err(JobError::OddPageCount(n));
    }
    let half = n / 2;
    let mut plan: Vec<usize> = Vec::with_capacity(n);
    let mut i: usize = 0;
    while i < half
        invariant
            n == 2 * half,
            i <= half,
            plan@.len() == 2 * i,
            forall|k: int| 0 <= k < 2 * i ==> #[trigger] plan@[k] as int == source_index(n as int, k),
        decreases half - i,
    {
        plan.push(i);
        plan.push(n - 1 - i);
        proof {
            assert(source_index(n as int, 2 * i as int) == i as int);
            assert(source_index(n as int, 2 * i + 1) == n - 1 - i);
        }
        i += 1;
    }
    Ok(plan)
}

/// The pages in front/back reading order, or the rejection of their count.
pub fn reorder<T: Copy>(pages: &Vec<T>) -> (r: Result<Vec<T>, JobError>)
    ensures
        match count_rejection(pages@.len()) {
            Some(e) => r == Err::<Vec<T>, JobError>(e),
            None => r is Ok && r->Ok_0@ == interleaved(pages@),
        },
{
    let n = pages.len();
    let plan = match reorder_plan(n) {
        Ok(p) => p,
        Err(e) => return Err(e),
    };
    let mut out: Vec<T> = Vec::with_capacity(n);
    let mut k: usize = 0;
    while k < n
        invariant
            count_rejection(n as nat) is None,
            n == pages@.len(),
            plan@.len() == n,
            forall|q: int| 0 <= q < n ==> #[trigger] plan@[q] as int == source_index(n as int, q),
            k <= n,
            out@ == interleaved(pages@).take(k as int),
        decreases n - k,
    {
        let src = plan[k];
        proof {
            assert(0 <= source_index(n as int, k as int) < n);
        }
        out.push(pages[src]);
        proof {
            assert(out@ =~= interleaved(pages@).take(k + 1));
        }
        k += 1;
    }
    proof {
        assert(out@ =~= interleaved(pages@));
    }
    Ok(out)
}

} // verus!
