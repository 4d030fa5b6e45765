//! How many times each address was visited, as the test page of the login
//! routes reports it.
use vstd::prelude::*;
use crate::text::{push_decimal_i64, push_str, text_eq};

verus! {

/// Visit counts by address.
#[derive(Debug)]
pub struct VisitCounts {
    paths: Vec<String>,
    counts: Vec<i32>,
}

/// The first position of `path` among `paths`.
pub open spec fn first_index(paths: Seq<Seq<char>>, path: Seq<char>) -> Option<int>
    decreases paths.len(),
{
    if paths.len() == 0 {
        None
    } else {
        match first_index(paths.drop_last(), path) {
            Some(i) => Some(i),
            None => if paths.last() == path {
                Some(paths.len() - 1)
            } else {
                None
            },
        }
    }
}

/// One visit of `path` taking `before` to `after` and answered `r`: a new
/// address is appended with count 0; a known one has its count raised by one.
pub open spec fn visit_step(before: VisitCounts, after: VisitCounts, path: Seq<char>, r: i32) -> bool {
    match before.count_of(path) {
        None => r == 0 && after.paths() == before.paths().push(path)
            && after.counts() == before.counts().push(0),
        Some(c) => r == c + 1 && after.paths() == before.paths()
            && after.counts() == before.counts().update(first_index(before.paths(), path)->0, r),
    }
}

/// How many times `p` occurs in `vs`.
pub open spec fn occurrences(vs: Seq<Seq<char>>, p: Seq<char>) -> nat
    decreases vs.len(),
{
    if vs.len() == 0 {
        0
    } else {
        occurrences(vs.drop_last(), p) + if vs.last() == p { 1nat } else { 0nat }
    }
}

impl VisitCounts {
    /// The addresses seen, in the order first seen.
    pub closed spec fn paths(&self) -> Seq<Seq<char>> {
        self.paths@.map_values(|p: String| p@)
    }

    /// The count of each address, position by position.
    pub closed spec fn counts(&self) -> Seq<i32> {
        self.counts@
    }

    /// Both sequences have one entry per address.
    pub closed spec fn wf(&self) -> bool {
        self.paths@.len() == self.counts@.len()
    }

    /// The count of `path`, if it was visited.
    pub open spec fn count_of(&self, path: Seq<char>) -> Option<i32> {
        match first_index(self.paths(), path) {
            Some(i) => Some(self.counts()[i]),
            None => None,
        }
    }

    /// No address visited yet.
    pub fn new() -> (r: Self)
        ensures
            r.wf(),
            r.paths().len() == 0,
            r.counts().len() == 0,
    {
        let r = VisitCounts { paths: Vec::new(), counts: Vec::new() };
        assert(r.paths() =~= Seq::<Seq<char>>::empty());
        r
    }

    /// The count of `path`, if it was visited.
    pub fn visits(&self, path: &str) -> (r: Option<i32>)
        requires
            self.wf(),
        ensures
            r == self.count_of(path@),
    {
        let ghost ps = self.paths();
        let n = self.paths.len();
        let mut i: usize = 0;
        while i < n
            invariant
                n == self.paths@.len(),
                n == self.counts@.len(),
                ps == self.paths(),
                i <= n,
                first_index(ps.take(i as int), path@) is None,
            decreases n - i,
        {
            assert(ps.take(i + 1).drop_last() =~= ps.take(i as int));
            assert(ps[i as int] == self.paths@[i as int]@);
            if text_eq(self.paths[i].as_str(), path) {
                assert(first_index(ps.take(i + 1), path@) == Some(i as int));
                proof {
                    lemma_first_index_extends(ps, i as int + 1, path@);
                }
                return Some(self.counts[i]);
            }
            i += 1;
        }
        assert(ps.take(n as int) =~= ps);
        None
    }

    /// Counts a visit of `path` and returns its count: 0 for a first visit,
    /// one more than before afterwards.
    pub fn record_visit(&mut self, path: &str) -> (r: i32)
        requires
            old(self).wf(),
            old(self).count_of(path@) matches Some(c) ==> c < i32::MAX,
        ensures
            final(self).wf(),
            visit_step(*old(self), *final(self), path@, r),
    {
        let ghost ps = self.paths();
        let n = self.paths.len();
        let mut i: usize = 0;
        while i < n
            invariant
                n == self.paths@.len(),
                n == self.counts@.len(),
                ps == self.paths(),
                ps == old(self).paths(),
                self.paths@ == old(self).paths@,
                self.counts@ == old(self).counts@,
                old(self).count_of(path@) matches Some(c) ==> c < i32::MAX,
                i <= n,
                first_index(ps.take(i as int), path@) is None,
            decreases n - i,
        {
            assert(ps.take(i + 1).drop_last() =~= ps.take(i as int));
            assert(ps[i as int] == self.paths@[i as int]@);
            if text_eq(self.paths[i].as_str(), path) {
                assert(first_index(ps.take(i + 1), path@) == Some(i as int));
                proof {
                    lemma_first_index_extends(ps, i as int + 1, path@);
                }
                assert(old(self).count_of(path@) == Some(self.counts@[i as int]));
                let c = self.counts[i] + 1;
                self.counts.set(i, c);
                assert(self.paths() == ps);
                return c;
            }
            i += 1;
        }
        assert(ps.take(n as int) =~= ps);
        let mut owned = String::new();
        push_str(&mut owned, path);
        self.paths.push(owned);
        self.counts.push(0);
        assert(self.paths() =~= ps.push(path@));
        assert(old(self).count_of(path@) is None);
        0
    }
}

proof fn lemma_first_index_extends(ps: Seq<Seq<char>>, k: int, path: Seq<char>)
    requires
        0 <= k <= ps.len(),
        first_index(ps.take(k), path) is Some,
    ensures
        first_index(ps, path) == first_index(ps.take(k), path),
    decreases ps.len(),
{
    if k == ps.len() {
        assert(ps.take(k) =~= ps);
    } else {
        assert(ps.drop_last().take(k) =~= ps.take(k));
        lemma_first_index_extends(ps.drop_last(), k, path);
    }
}

proof fn lemma_first_index_found(ps: Seq<Seq<char>>, path: Seq<char>)
    ensures
        first_index(ps, path) matches Some(i) ==> 0 <= i < ps.len() && ps[i] == path,
        first_index(ps, path) is None ==> forall|j: int| 0 <= j < ps.len() ==> ps[j] != path,
    decreases ps.len(),
{
    if ps.len() > 0 {
        lemma_first_index_found(ps.drop_last(), path);
        assert forall|j: int| 0 <= j < ps.len() - 1 implies ps[j] == ps.drop_last()[j] by {}
    }
}

proof fn lemma_first_index_push(ps: Seq<Seq<char>>, path: Seq<char>, q: Seq<char>)
    ensures
        first_index(ps.push(path), q) == (match first_index(ps, q) {
            Some(i) => Some(i),
            None => if path == q { Some(ps.len() as int) } else { None },
        }),
{
    assert(ps.push(path).drop_last() =~= ps);
}

/// One visit changes the count of the visited address only: to 0 when new,
/// to one more otherwise.
pub proof fn lemma_visit_step_counts(before: VisitCounts, after: VisitCounts, path: Seq<char>, r: i32, q: Seq<char>)
    requires
        before.wf(),
        visit_step(before, after, path, r),
    ensures
        after.count_of(q) == (if q == path {
            Some(r)
        } else {
            before.count_of(q)
        }),
        q == path ==> (match before.count_of(q) {
            None => r == 0,
            Some(c) => r == c + 1,
        }),
{
    let ps = before.paths();
    lemma_first_index_found(ps, path);
    lemma_first_index_found(ps, q);
    match before.count_of(path) {
        None => {
            lemma_first_index_push(ps, path, q);
        },
        Some(c) => {
            let i = first_index(ps, path)->0;
            if q != path {
                if let Some(j) = first_index(ps, q) {
                    assert(j != i);
                }
            }
        },
    }
}

/// Step `i` of a run of visits: state `i + 1` is what visiting `vs[i]` made of
/// state `i`, with reply `replies[i]`.
pub open spec fn replayed(states: Seq<VisitCounts>, replies: Seq<i32>, vs: Seq<Seq<char>>, i: int) -> bool {
    states[i + 1].wf() && visit_step(states[i], states[i + 1], vs[i], replies[i])
}

/// Starting from no visits, after the visits `vs` (one `record_visit` each)
/// an address never visited has no count, and one visited `k` times has
/// count `k - 1`: the first visit reports 0, and visits of other addresses
/// leave it alone.
pub proof fn lemma_visits_counted(states: Seq<VisitCounts>, replies: Seq<i32>, vs: Seq<Seq<char>>, p: Seq<char>)
    requires
        states.len() == vs.len() + 1,
        replies.len() == vs.len(),
        states[0].wf(),
        states[0].paths().len() == 0,
        forall|i: int| 0 <= i < vs.len() ==> #[trigger] replayed(states, replies, vs, i),
    ensures
        states.last().count_of(p) is None <==> occurrences(vs, p) == 0,
        states.last().count_of(p) matches Some(c) ==> c == occurrences(vs, p) - 1,
        forall|i: int| 0 <= i < vs.len() && #[trigger] vs[i] == p ==> replies[i] == occurrences(vs.take(i + 1), p) - 1,
    decreases vs.len(),
{
    if vs.len() == 0 {
        assert(first_index(states[0].paths(), p) is None);
    } else {
        let n = vs.len() - 1;
        let vs0 = vs.drop_last();
        let st0 = states.drop_last();
        let rp0 = replies.drop_last();
        assert forall|i: int| 0 <= i < vs0.len() implies #[trigger] replayed(st0, rp0, vs0, i) by {
            assert(replayed(states, replies, vs, i));
        }
        lemma_visits_counted(st0, rp0, vs0, p);
        assert(replayed(states, replies, vs, n));
        if n > 0 {
            assert(replayed(states, replies, vs, n - 1));
        }
        lemma_visit_step_counts(states[n], states[n + 1], vs[n], replies[n], p);
        assert(vs.drop_last() == vs0);
        assert(st0.last() == states[n]);
        assert forall|i: int| 0 <= i < vs.len() && #[trigger] vs[i] == p implies replies[i] == occurrences(vs.take(i + 1), p) - 1 by {
            if i < n {
                assert(vs0[i] == p);
                assert(vs0.take(i + 1) =~= vs.take(i + 1));
            } else {
                assert(vs.take(i + 1) =~= vs);
            }
        }
    }
}

/// The test page's text for a visit count.
pub fn visit_message(count: i32) -> (r: String)
    ensures
        r@ == "This is the "@ + crate::text::decimal_int(count as int) + "th visit to this URL!"@,
{
    let mut r = String::new();
    push_str(&mut r, "This is the ");
    push_decimal_i64(&mut r, count as i64);
    push_str(&mut r, "th visit to this URL!");
    r
}

} // verus!
