use vstd::prelude::*;

verus! {

/// Items that are put in order by an integer key.
pub trait SortKey {
    spec fn spec_key(&self) -> int;

    fn sort_key(&self) -> (r: i64)
        ensures
            r as int == self.spec_key(),
    ;
}

pub open spec fn sorted_by_key<T: SortKey>(s: Seq<T>) -> bool {
    forall|i: int, j: int| 0 <= i < j < s.len() ==> s[i].spec_key() <= s[j].spec_key()
}

/// Puts items in ascending order of their key, keeping every item.
pub fn sort_by_key<T: SortKey>(items: Vec<T>) -> (r: Vec<T>)
    ensures
        sorted_by_key(r@),
        r@.to_multiset() == items@.to_multiset(),
{
    let mut out: Vec<T> = Vec::new();
    let mut rest = items;
    let ghost orig = rest@;
    let mut k: usize = 0;
    let n = rest.len();
    proof {
        assert(orig.subrange(n as int, n as int) =~= out@);
        assert(orig.subrange(0, n as int) =~= orig);
    }
    // Take items from the back so that each removal is cheap.
    while k < n
        invariant
            n == orig.len(),
            k <= n,
            rest@ == orig.subrange(0, n - k),
            sorted_by_key(out@),
            out@.to_multiset() == orig.subrange(n - k, n as int).to_multiset(),
        decreases n - k,
    {
        let item = rest.pop().unwrap();
        proof {
            assert(orig.subrange(n - k - 1, n as int) =~= orig.subrange(n - k, n as int).insert(
                0,
                item,
            ));
            assert(rest@ =~= orig.subrange(0, n - k - 1));
        }
        let key = item.sort_key();
        let mut p: usize = 0;
        while p < out.len() && out[p].sort_key() < key
            invariant
                p <= out.len(),
                sorted_by_key(out@),
                key == item.spec_key(),
                forall|q: int| 0 <= q < p ==> out@[q].spec_key() < item.spec_key(),
            decreases out.len() - p,
        {
            p = p + 1;
        }
        let ghost before = out@;
        out.insert(p, item);
        proof {
            assert(out@ == before.insert(p as int, item));
            assert forall|i: int, j: int| 0 <= i < j < out@.len() implies out@[i].spec_key()
                <= out@[j].spec_key() by {
                if j < p {
                } else if j == p {
                } else if i < p {
                } else if i == p {
                    assert(out@[j] == before[j - 1]);
                } else {
                    assert(out@[j] == before[j - 1]);
                    assert(out@[i] == before[i - 1]);
                }
            }
            let tail = orig.subrange(n - k, n as int);
            vstd::seq_lib::to_multiset_insert(tail, 0, item);
            vstd::seq_lib::to_multiset_insert(before, p as int, item);
        }
        k = k + 1;
    }
    out
}

} // verus!
