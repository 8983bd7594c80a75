use vstd::prelude::*;
use crate::error::{FirestoreError, FirestoreResult};
use crate::params::{cursor_of, ListPage, PagedParams};

verus! {

/// A paginated walk: the parameters of the next page to fetch, or the end.
#[derive(Debug, Clone, PartialEq, Eq)]
pub enum ListingState<P> {
    Continue(P),
    Done,
}

/// Each item wrapped as a success.
pub open spec fn oks<D>(s: Seq<D>) -> Seq<FirestoreResult<D>> {
    s.map_values(|d: D| Ok::<D, FirestoreError>(d))
}

/// The items that one page outcome adds to the item stream: the page's items
/// in order, or the error alone.
pub open spec fn page_items<D>(outcome: FirestoreResult<ListPage<D>>) -> Seq<FirestoreResult<D>> {
    match outcome {
        Ok(page) => oks(page.items@),
        Err(e) => seq![Err(e)],
    }
}

/// The cursor the walk resumes at after this outcome; `None` ends the walk.
pub open spec fn next_cursor<D>(outcome: FirestoreResult<ListPage<D>>) -> Option<Seq<char>> {
    match outcome {
        Ok(page) => match page.next_page_token {
            Some(t) => cursor_of(t@),
            None => None,
        },
        Err(_) => None,
    }
}

/// The item stream of a walk whose successive page fetches give `outcomes`;
/// outcomes past the end of the walk are never asked for.
pub open spec fn walk_items<D>(outcomes: Seq<FirestoreResult<ListPage<D>>>) -> Seq<FirestoreResult<D>>
    decreases outcomes.len(),
{
    if outcomes.len() == 0 {
        Seq::empty()
    } else if next_cursor(outcomes[0]) is Some {
        page_items(outcomes[0]) + walk_items(outcomes.drop_first())
    } else {
        page_items(outcomes[0])
    }
}

/// The number of pages that walk fetches.
pub open spec fn walk_pages<D>(outcomes: Seq<FirestoreResult<ListPage<D>>>) -> nat
    decreases outcomes.len(),
{
    if outcomes.len() == 0 {
        0
    } else if next_cursor(outcomes[0]) is Some {
        1 + walk_pages(outcomes.drop_first())
    } else {
        1
    }
}

/// The items in reverse order, moved rather than cloned.
pub fn into_reversed<D>(items: Vec<D>) -> (r: Vec<D>)
    ensures
        r.len() == items.len(),
        forall|i: int| 0 <= i < r.len() ==> #[trigger] r@[i] == items@[items.len() - 1 - i],
{
    let ghost orig = items@;
    let n = items.len();
    let mut items = items;
    let mut rev: Vec<D> = Vec::new();
    while items.len() > 0
        invariant
            items.len() + rev.len() == n,
            n == orig.len(),
            items@ == orig.subrange(0, items.len() as int),
            forall|i: int| 0 <= i < rev.len() ==> #[trigger] rev@[i] == orig[n - 1 - i],
        decreases items.len(),
    {
        let d = items.pop().unwrap();
        rev.push(d);
    }
    rev
}

/// Wraps each item as a success, keeping the order.
pub fn wrap_ok<D>(items: Vec<D>) -> (r: Vec<FirestoreResult<D>>)
    ensures
        r@ == oks(items@),
{
    let ghost orig = items@;
    let n = items.len();
    let mut rev = into_reversed(items);
    let mut out: Vec<FirestoreResult<D>> = Vec::new();
    while rev.len() > 0
        invariant
            out.len() + rev.len() == n,
            n == orig.len(),
            forall|i: int| 0 <= i < rev.len() ==> #[trigger] rev@[i] == orig[n - 1 - i],
            forall|i: int| 0 <= i < out.len() ==> #[trigger] out@[i] == Ok::<D, FirestoreError>(orig[i]),
        decreases rev.len(),
    {
        let d = rev.pop().unwrap();
        out.push(Ok(d));
    }
    assert(out@ =~= oks(orig));
    out
}

impl<P: PagedParams> ListingState<P> {
    /// A walk that starts at `params`.
    pub fn start(params: P) -> (r: Self)
        ensures
            r == ListingState::Continue(params),
    {
        ListingState::Continue(params)
    }

    pub fn is_done(&self) -> (r: bool)
        ensures
            r == (*self is Done),
    {
        matches!(self, ListingState::Done)
    }

    /// The parameters of the page to fetch next; `None` once the walk has ended.
    pub fn next_request(&self) -> (r: Option<&P>)
        ensures
            *self is Done ==> r is None,
            *self matches ListingState::Continue(p) ==> r == Some(&p),
    {
        match self {
            ListingState::Continue(p) => Some(p),
            ListingState::Done => None,
        }
    }

    /// Takes the outcome of fetching the current page: returns the next state
    /// and the items that page adds to the stream. A page with a non-empty
    /// cursor resumes the same listing at that cursor; a last page or a
    /// failure ends the walk, a failure adding itself as the last item.
    pub fn advance<D>(self, outcome: FirestoreResult<ListPage<D>>) -> (r: (ListingState<P>, Vec<
        FirestoreResult<D>,
    >))
        requires
            self is Continue,
        ensures
            r.1@ == page_items(outcome),
            next_cursor(outcome) is None ==> r.0 is Done,
            next_cursor(outcome) matches Some(t) ==> (r.0 matches ListingState::Continue(q) && q.cursor()
                == Some(t) && q.same_query(&self->Continue_0)),
    {
        let params = match self {
            ListingState::Continue(p) => p,
            ListingState::Done => unreached(),
        };
        match outcome {
            Ok(page) => {
                let items = wrap_ok(page.items);
                match page.next_page_token {
                    Some(t) => {
                        if t.as_str().is_empty() {
                            (ListingState::Done, items)
                        } else {
                            (ListingState::Continue(params.resume_at(t)), items)
                        }
                    },
                    None => (ListingState::Done, items),
                }
            },
            Err(e) => {
                let mut items: Vec<FirestoreResult<D>> = Vec::new();
                items.push(Err(e));
                assert(items@ =~= seq![Err::<D, FirestoreError>(e)]);
                (ListingState::Done, items)
            },
        }
    }
}

/// Once a page fetch fails the walk ends: no page after it is fetched, and
/// the failure is the last item of the stream.
pub proof fn lemma_error_ends_walk<D>(outcomes: Seq<FirestoreResult<ListPage<D>>>, j: nat)
    requires
        j < outcomes.len(),
        outcomes[j as int] is Err,
        forall|i: int| 0 <= i < j ==> next_cursor(#[trigger] outcomes[i]) is Some,
    ensures
        walk_items(outcomes) == walk_items(outcomes.subrange(0, (j + 1) as int)),
        walk_items(outcomes).len() > 0,
        walk_items(outcomes).last() == Err::<D, FirestoreError>(outcomes[j as int]->Err_0),
        walk_pages(outcomes) == j + 1,
    decreases j,
{
    let prefix = outcomes.subrange(0, (j + 1) as int);
    if j == 0 {
        assert(walk_items(prefix) == page_items(prefix[0]));
    } else {
        let tail = outcomes.drop_first();
        assert forall|i: int| 0 <= i < j - 1 implies next_cursor(#[trigger] tail[i]) is Some by {
            assert(tail[i] == outcomes[i + 1]);
        }
        lemma_error_ends_walk(tail, (j - 1) as nat);
        assert(prefix.drop_first() =~= tail.subrange(0, j as int));
        assert(prefix[0] == outcomes[0]);
    }
}

/// The number of pages that `n` items take at `p` per page, `n` and `p` positive.
pub open spec fn page_count(n: nat, p: nat) -> nat {
    ((n + p - 1) / (p as int)) as nat
}

/// The items of page `k` when `data` is served `p` at a time.
pub open spec fn chunk<D>(data: Seq<D>, p: nat, k: nat) -> Seq<D> {
    let hi: int = if (k + 1) * p < data.len() {
        ((k + 1) * p) as int
    } else {
        data.len() as int
    };
    data.subrange((k * p) as int, hi)
}

proof fn lemma_page_index_bound(n: nat, p: nat, j: nat)
    requires
        n > 0,
        p > 0,
    ensures
        j < page_count(n, p) <==> j * p < n,
{
    let q = (n + p - 1) / (p as int);
    let r = (n + p - 1) % (p as int);
    vstd::arithmetic::div_mod::lemma_fundamental_div_mod((n + p - 1) as int, p as int);
    vstd::arithmetic::div_mod::lemma_mod_bound((n + p - 1) as int, p as int);
    assert(j < q <==> j * p < n) by (nonlinear_arith)
        requires
            n + p - 1 == p * q + r,
            0 <= r < p,
            p > 0,
    ;
}

proof fn lemma_oks_concat<D>(a: Seq<D>, b: Seq<D>)
    ensures
        oks(a + b) == oks(a) + oks(b),
{
    assert(oks(a + b) =~= oks(a) + oks(b));
}

proof fn lemma_walk_suffix<D>(data: Seq<D>, p: nat, outcomes: Seq<FirestoreResult<ListPage<D>>>, j: nat)
    requires
        p > 0,
        data.len() > 0,
        j < page_count(data.len(), p) <= outcomes.len(),
        forall|k: nat| k < page_count(data.len(), p) ==> {
            &&& #[trigger] outcomes[k as int] is Ok
            &&& outcomes[k as int]->Ok_0.items@ == chunk(data, p, k)
            &&& (next_cursor(outcomes[k as int]) is Some <==> k + 1 < page_count(data.len(), p))
        },
    ensures
        ({
            let suffix = outcomes.subrange(j as int, outcomes.len() as int);
            &&& walk_items(suffix) == oks(data.subrange((j * p) as int, data.len() as int))
            &&& walk_pages(suffix) == page_count(data.len(), p) - j
        }),
    decreases page_count(data.len(), p) - j,
{
    let n = data.len();
    let m = page_count(n, p);
    let suffix = outcomes.subrange(j as int, outcomes.len() as int);
    lemma_page_index_bound(n, p, j);
    lemma_page_index_bound(n, p, j + 1);
    assert(suffix[0] == outcomes[j as int]);
    assert((j + 1) * p == j * p + p) by (nonlinear_arith);
    if j + 1 < m {
        lemma_walk_suffix(data, p, outcomes, j + 1);
        assert(suffix.drop_first() =~= outcomes.subrange((j + 1) as int, outcomes.len() as int));
        lemma_oks_concat(chunk(data, p, j), data.subrange(((j + 1) * p) as int, n as int));
        assert(chunk(data, p, j) + data.subrange(((j + 1) * p) as int, n as int) =~= data.subrange((j * p) as int, n as int));
    } else {
        assert(chunk(data, p, j) =~= data.subrange((j * p) as int, n as int));
    }
}

/// Walking a fixed, non-empty data set served `p` items per page, each page
/// but the last carrying a cursor, yields every item exactly once and in
/// order, over `ceil(n / p)` page fetches, the walk ending at the page
/// without a cursor.
pub proof fn lemma_exhaustive_pagination<D>(data: Seq<D>, p: nat, outcomes: Seq<FirestoreResult<ListPage<D>>>)
    requires
        p > 0,
        data.len() > 0,
        page_count(data.len(), p) <= outcomes.len(),
        forall|k: nat| k < page_count(data.len(), p) ==> {
            &&& #[trigger] outcomes[k as int] is Ok
            &&& outcomes[k as int]->Ok_0.items@ == chunk(data, p, k)
            &&& (next_cursor(outcomes[k as int]) is Some <==> k + 1 < page_count(data.len(), p))
        },
    ensures
        walk_items(outcomes) == oks(data),
        walk_pages(outcomes) == page_count(data.len(), p),
{
    lemma_page_index_bound(data.len(), p, 0);
    lemma_walk_suffix(data, p, outcomes, 0);
    assert(outcomes.subrange(0, outcomes.len() as int) =~= outcomes);
    assert(data.subrange(0, data.len() as int) =~= data);
}

} // verus!
