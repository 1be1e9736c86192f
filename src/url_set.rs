//! Sets of URL strings with a check-and-insert claim.

use vstd::prelude::*;
use crate::web::views;

verus! {

broadcast use vstd::seq_lib::group_seq_properties;

/// Claiming `reqs` in order against a set that held `start`: the requests
/// that succeed, each the first occurrence of a URL not in `start`.
pub open spec fn claimed_in_order(start: Set<Seq<char>>, reqs: Seq<Seq<char>>) -> Seq<Seq<char>>
    decreases reqs.len(),
{
    if reqs.len() == 0 {
        seq![]
    } else {
        let prev = claimed_in_order(start, reqs.drop_last());
        if start.contains(reqs.last()) || reqs.drop_last().contains(reqs.last()) {
            prev
        } else {
            prev.push(reqs.last())
        }
    }
}

/// Whether the `i`th of `reqs`, claimed in order against a set that held
/// `start`, succeeds: its URL is neither in `start` nor claimed before it.
pub open spec fn claim_succeeds(start: Set<Seq<char>>, reqs: Seq<Seq<char>>, i: int) -> bool {
    !start.union(reqs.subrange(0, i).to_set()).contains(reqs[i])
}

/// A set of URL strings, each held once.
pub struct UrlSet {
    urls: Vec<String>,
}

impl View for UrlSet {
    type V = Set<Seq<char>>;

    closed spec fn view(&self) -> Set<Seq<char>> {
        views(self.urls@).to_set()
    }
}

impl UrlSet {
    /// No URL is held twice.
    pub closed spec fn wf(&self) -> bool {
        views(self.urls@).no_duplicates()
    }

    /// An empty set.
    pub fn new() -> (r: UrlSet)
        ensures
            r.wf(),
            r@ == Set::<Seq<char>>::empty(),
    {
        let r = UrlSet { urls: Vec::new() };
        assert(views(r.urls@) =~= seq![]);
        r
    }

    /// Whether `url` is held.
    pub fn contains(&self, url: &str) -> (r: bool)
        ensures
            r == self@.contains(url@),
    {
        let key = String::from_str(url);
        let mut i: usize = 0;
        while i < self.urls.len()
            invariant
                i <= self.urls.len(),
                key@ == url@,
                forall|j: int| 0 <= j < i ==> self.urls@[j]@ != url@,
            decreases self.urls.len() - i,
        {
            if self.urls[i] == key {
                assert(views(self.urls@)[i as int] == url@);
                return true;
            }
            i = i + 1;
        }
        assert forall|j: int| 0 <= j < views(self.urls@).len() implies views(self.urls@)[j] != url@ by {}
        false
    }

    /// The number of URLs held.
    pub fn len(&self) -> (r: usize)
        requires
            self.wf(),
        ensures
            r == self@.len(),
    {
        proof {
            views(self.urls@).unique_seq_to_set();
        }
        self.urls.len()
    }

    /// Claims `url`: inserts it and reports whether it was absent, in one step.
    pub fn claim(&mut self, url: &str) -> (r: bool)
        requires
            old(self).wf(),
        ensures
            final(self).wf(),
            r == !old(self)@.contains(url@),
            final(self)@ == old(self)@.insert(url@),
    {
        if self.contains(url) {
            assert(self@.insert(url@) =~= self@);
            false
        } else {
            let ghost before = views(self.urls@);
            self.urls.push(String::from_str(url));
            assert(views(self.urls@) =~= before.push(url@));
            true
        }
    }

    /// Claims each of `reqs` in order and returns those claims that succeeded.
    pub fn claim_all(&mut self, reqs: &Vec<String>) -> (r: Vec<String>)
        requires
            old(self).wf(),
        ensures
            final(self).wf(),
            final(self)@ == old(self)@.union(views(reqs@).to_set()),
            views(r@) == claimed_in_order(old(self)@, views(reqs@)),
    {
        let ghost start = self@;
        let ghost all = views(reqs@);
        let mut out: Vec<String> = Vec::new();
        let mut i: usize = 0;
        while i < reqs.len()
            invariant
                i <= reqs.len(),
                all == views(reqs@),
                self.wf(),
                self@ == start.union(all.subrange(0, i as int).to_set()),
                views(out@) == claimed_in_order(start, all.subrange(0, i as int)),
            decreases reqs.len() - i,
        {
            let ghost pre = all.subrange(0, i as int);
            assert(all.subrange(0, i + 1) =~= pre.push(all[i as int]));
            assert(all.subrange(0, i + 1).drop_last() =~= pre);
            if self.claim(reqs[i].as_str()) {
                out.push(reqs[i].clone());
                assert(views(out@) =~= claimed_in_order(start, pre).push(all[i as int]));
            }
            assert(self@ =~= start.union(all.subrange(0, i + 1).to_set()));
            i = i + 1;
        }
        assert(all.subrange(0, reqs.len() as int) =~= all);
        out
    }
}

/// Whatever sequence of URLs is claimed against a set, each URL that the set
/// did not hold is claimed successfully exactly once: at its first
/// occurrence, and at no other.
pub proof fn lemma_claimed_exactly_once(start: Set<Seq<char>>, reqs: Seq<Seq<char>>, u: Seq<char>)
    requires
        reqs.contains(u),
        !start.contains(u),
    ensures
        exists|i: int| 0 <= i < reqs.len() && reqs[i] == u && claim_succeeds(start, reqs, i),
        forall|i: int, j: int|
            0 <= i < reqs.len() && 0 <= j < reqs.len() && reqs[i] == u && reqs[j] == u
                && claim_succeeds(start, reqs, i) && claim_succeeds(start, reqs, j) ==> i == j,
{
    reqs.index_of_first_ensures(u);
    let k = reqs.index_of_first(u).unwrap();
    assert(!reqs.subrange(0, k).contains(u)) by {
        if reqs.subrange(0, k).contains(u) {
            let m = choose|m: int| 0 <= m < k && reqs.subrange(0, k)[m] == u;
            assert(reqs[m] == u);
        }
    }
    assert(claim_succeeds(start, reqs, k));
    assert forall|i: int, j: int|
        0 <= i < reqs.len() && 0 <= j < reqs.len() && reqs[i] == u && reqs[j] == u
            && claim_succeeds(start, reqs, i) && claim_succeeds(start, reqs, j) implies i == j by {
        if i < j {
            assert(reqs.subrange(0, j)[i] == u);
        } else if j < i {
            assert(reqs.subrange(0, i)[j] == u);
        }
    }
}

} // verus!
