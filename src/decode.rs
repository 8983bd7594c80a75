use vstd::prelude::*;
use crate::error::{FirestoreError, FirestoreResult};
use crate::stream::into_reversed;

verus! {

/// The successes of `s`, in order: what a lossy stream keeps.
pub open spec fn ok_values<T>(s: Seq<FirestoreResult<T>>) -> Seq<T>
    decreases s.len(),
{
    if s.len() == 0 {
        Seq::empty()
    } else {
        match s.last() {
            Ok(v) => ok_values(s.drop_last()).push(v),
            Err(_) => ok_values(s.drop_last()),
        }
    }
}

/// Keeps the successes, in order, and drops the failures.
pub fn keep_ok<T>(items: Vec<FirestoreResult<T>>) -> (r: Vec<T>)
    ensures
        r@ == ok_values(items@),
{
    let ghost orig = items@;
    let n = items.len();
    let mut rev = into_reversed(items);
    let mut out: Vec<T> = Vec::new();
    while rev.len() > 0
        invariant
            rev.len() <= n,
            n == orig.len(),
            forall|i: int| 0 <= i < rev.len() ==> #[trigger] rev@[i] == orig[n - 1 - i],
            out@ == ok_values(orig.subrange(0, n - rev.len())),
        decreases rev.len(),
    {
        let ghost done = n - rev.len();
        let x = rev.pop().unwrap();
        proof {
            let next = orig.subrange(0, done + 1);
            assert(next.drop_last() =~= orig.subrange(0, done));
            assert(next.last() == orig[done]);
        }
        match x {
            Ok(v) => out.push(v),
            Err(_) => {},
        }
    }
    assert(orig.subrange(0, n as int) =~= orig);
    out
}

/// Decodes each document in place: a failure already in the sequence stays
/// where it is, and each document becomes what `decode` gives for it.
pub fn decode_strict<D, T, F: Fn(&D) -> FirestoreResult<T>>(items: Vec<FirestoreResult<D>>, decode: &F) -> (r:
    Vec<FirestoreResult<T>>)
    requires
        forall|d: &D| decode.requires((d,)),
    ensures
        r.len() == items.len(),
        forall|i: int| 0 <= i < items.len() ==> (#[trigger] items@[i] matches Err(e) ==> r@[i] == Err::<T, FirestoreError>(e)),
        forall|i: int| 0 <= i < items.len() ==> (#[trigger] items@[i] matches Ok(d) ==> decode.ensures((&d,), r@[i])),
{
    let ghost orig = items@;
    let n = items.len();
    let mut rev = into_reversed(items);
    let mut out: Vec<FirestoreResult<T>> = Vec::new();
    while rev.len() > 0
        invariant
            out.len() + rev.len() == n,
            n == orig.len(),
            forall|d: &D| decode.requires((d,)),
            forall|k: int| 0 <= k < rev.len() ==> #[trigger] rev@[k] == orig[n - 1 - k],
            forall|k: int| 0 <= k < out.len() ==> (#[trigger] orig[k] matches Err(e) ==> out@[k] == Err::<T, FirestoreError>(e)),
            forall|k: int| 0 <= k < out.len() ==> (#[trigger] orig[k] matches Ok(d) ==> decode.ensures((&d,), out@[k])),
        decreases rev.len(),
    {
        let x = rev.pop().unwrap();
        match x {
            Ok(d) => {
                let t = decode(&d);
                out.push(t);
            },
            Err(e) => out.push(Err(e)),
        }
    }
    out
}

/// Decodes each document and keeps only the successes, in order.
pub fn decode_lossy<D, T, F: Fn(&D) -> FirestoreResult<T>>(items: Vec<FirestoreResult<D>>, decode: &F) -> (r: Vec<T>)
    requires
        forall|d: &D| decode.requires((d,)),
    ensures
        exists|s: Seq<FirestoreResult<T>>| {
            &&& s.len() == items.len()
            &&& forall|i: int| 0 <= i < items.len() ==> (#[trigger] items@[i] matches Err(e) ==> s[i] == Err::<T, FirestoreError>(e))
            &&& forall|i: int| 0 <= i < items.len() ==> (#[trigger] items@[i] matches Ok(d) ==> decode.ensures((&d,), s[i]))
            &&& r@ == ok_values(s)
        },
{
    let decoded = decode_strict(items, decode);
    let r = keep_ok(decoded);
    assert(r@ == ok_values(decoded@));
    r
}

proof fn lemma_ok_values_concat<T>(a: Seq<FirestoreResult<T>>, b: Seq<FirestoreResult<T>>)
    ensures
        ok_values(a + b) == ok_values(a) + ok_values(b),
    decreases b.len(),
{
    if b.len() == 0 {
        assert(a + b =~= a);
        assert(ok_values(a) + ok_values(b) =~= ok_values(a));
    } else {
        lemma_ok_values_concat(a, b.drop_last());
        assert((a + b).drop_last() =~= a + b.drop_last());
        assert((a + b).last() == b.last());
        match b.last() {
            Ok(v) => assert(ok_values(a) + ok_values(b.drop_last()).push(v) =~= (ok_values(a)
                + ok_values(b.drop_last())).push(v)),
            Err(_) => {},
        }
    }
}

/// A failed item in a lossy sequence is dropped, and the items around it
/// come out as they would without it.
pub proof fn lemma_lossy_isolation<T>(s: Seq<FirestoreResult<T>>, j: int)
    requires
        0 <= j < s.len(),
        s[j] is Err,
    ensures
        ok_values(s) == ok_values(s.subrange(0, j)) + ok_values(s.subrange(j + 1, s.len() as int)),
{
    let before = s.subrange(0, j);
    let after = s.subrange(j + 1, s.len() as int);
    let bad = s.subrange(j, j + 1);
    assert(s =~= before + bad + after);
    lemma_ok_values_concat(before + bad, after);
    lemma_ok_values_concat(before, bad);
    assert(bad.len() == 1);
    assert(bad.last() == s[j]);
    assert(bad.drop_last() =~= Seq::<FirestoreResult<T>>::empty());
    assert(ok_values(bad.drop_last()) =~= Seq::<T>::empty());
    assert(ok_values(bad) =~= Seq::<T>::empty());
    assert(ok_values(before) + ok_values(bad) =~= ok_values(before));
}

} // verus!
