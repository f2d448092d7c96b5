use vstd::prelude::*;

use crate::text::clone_chars;
use crate::text::eq_chars;

verus! {

/// Both separators are accepted on input; output paths always use `/`.
pub open spec fn is_sep(c: char) -> bool {
    c == '/' || c == '\\'
}

/// A vector of codepoints abstracts to the same sequence through `deep_view`
/// as through `view`.
pub proof fn lemma_chars_deep_view(v: Vec<char>)
    ensures
        v.deep_view() == v@,
{
    assert(v.deep_view() =~= v@);
}

/// Indexing the deep view of a vector of codepoint vectors is indexing the
/// vector and taking the view.
pub proof fn lemma_deep_index(v: Vec<Vec<char>>, i: int)
    requires
        0 <= i < v@.len(),
    ensures
        v.deep_view()[i] == v@[i]@,
{
    lemma_chars_deep_view(v@[i]);
}

/// The state of a left-to-right scan of the first `i` codepoints of `s`:
/// the finished segments, and the segment still being gathered.
pub open spec fn split_state(s: Seq<char>, i: int) -> (Seq<Seq<char>>, Seq<char>)
    decreases i,
{
    if i <= 0 {
        (Seq::<Seq<char>>::empty(), Seq::<char>::empty())
    } else {
        let prev = split_state(s, i - 1);
        let c = s[i - 1];
        if is_sep(c) {
            if prev.1.len() > 0 {
                (prev.0.push(prev.1), Seq::<char>::empty())
            } else {
                prev
            }
        } else {
            (prev.0, prev.1.push(c))
        }
    }
}

/// The named segments of a path: the maximal separator-free runs, in order.
/// Empty segments (repeated separators) do not appear.
pub open spec fn spec_segments(s: Seq<char>) -> Seq<Seq<char>> {
    let st = split_state(s, s.len() as int);
    if st.1.len() > 0 {
        st.0.push(st.1)
    } else {
        st.0
    }
}

/// A path carries the root marker exactly when it begins with a separator.
pub open spec fn spec_has_root(s: Seq<char>) -> bool {
    s.len() > 0 && is_sep(s[0])
}

/// Joins a path and one more component, omitting the separator when the
/// accumulated path is empty or already ends in one.
pub open spec fn spec_join(acc: Seq<char>, comp: Seq<char>) -> Seq<char> {
    if acc.len() == 0 || acc.last() == '/' {
        acc + comp
    } else {
        acc + seq!['/'] + comp
    }
}

/// The walk state after the first `i` segments have been tested against the
/// set of existing paths `ex`: the validated accumulator, whether the walk
/// has failed, and the failing segment (the completion hint).
pub open spec fn walk_state(root: bool, segs: Seq<Seq<char>>, ex: Seq<Seq<char>>, i: int) -> (
    Seq<char>,
    bool,
    Seq<char>,
)
    decreases i,
{
    if i <= 0 {
        (
            if root {
                seq!['/']
            } else {
                Seq::<char>::empty()
            },
            false,
            Seq::<char>::empty(),
        )
    } else {
        let prev = walk_state(root, segs, ex, i - 1);
        if prev.1 {
            prev
        } else {
            let test = spec_join(prev.0, segs[i - 1]);
            if ex.contains(test) {
                (test, false, Seq::<char>::empty())
            } else {
                (prev.0, true, segs[i - 1])
            }
        }
    }
}

/// What the whole walk over `path` yields against the existing paths `ex`:
/// the longest valid prefix, whether every segment was valid, and the first
/// invalid segment when one was met.
pub open spec fn spec_resolve(path: Seq<char>, ex: Seq<Seq<char>>) -> (Seq<char>, bool, Seq<char>) {
    walk_state(spec_has_root(path), spec_segments(path), ex, spec_segments(path).len() as int)
}

/// Once the walk has failed it stays failed, with the same accumulator and
/// hint, however many further segments are consumed.
pub proof fn lemma_walk_stable(root: bool, segs: Seq<Seq<char>>, ex: Seq<Seq<char>>, i: int, j: int)
    requires
        0 <= i <= j,
        walk_state(root, segs, ex, i).1,
    ensures
        walk_state(root, segs, ex, j) == walk_state(root, segs, ex, i),
    decreases j - i,
{
    if j > i {
        lemma_walk_stable(root, segs, ex, i, j - 1);
    }
}

/// What a prefix-validation walk reports back.
pub struct PathWalkResult {
    pub validated_path: Vec<char>,
    pub is_fully_valid: bool,
    pub hint: Vec<char>,
}

/// Splits a path into its named segments, per `spec_segments`.
pub fn split_segments(path: &Vec<char>) -> (r: Vec<Vec<char>>)
    ensures
        r.deep_view() == spec_segments(path@),
{
    let mut done: Vec<Vec<char>> = Vec::new();
    let mut cur: Vec<char> = Vec::new();
    let mut i: usize = 0;
    while i < path.len()
        invariant
            i <= path@.len(),
            (done.deep_view(), cur@) == split_state(path@, i as int),
        decreases path@.len() - i,
    {
        let c = path[i];
        if c == '/' || c == '\\' {
            if cur.len() > 0 {
                let ghost prev_done = done.deep_view();
                let ghost prev_cur = cur@;
                done.push(cur);
                cur = Vec::new();
                proof {
                    assert(done.deep_view() =~~= prev_done.push(prev_cur));
                    assert(done.deep_view() == split_state(path@, i + 1).0);
                }
            }
        } else {
            cur.push(c);
        }
        i = i + 1;
    }
    if cur.len() > 0 {
        let ghost prev_done = done.deep_view();
        let ghost prev_cur = cur@;
        done.push(cur);
        proof {
            assert(done.deep_view() =~~= prev_done.push(prev_cur));
            assert(done.deep_view() == spec_segments(path@));
        }
    }
    done
}

/// Joins a validated path and one more component, per `spec_join`.
pub fn join_path(acc: &Vec<char>, comp: &Vec<char>) -> (r: Vec<char>)
    ensures
        r@ == spec_join(acc@, comp@),
{
    let mut out = clone_chars(acc);
    if !(acc.len() == 0 || acc[acc.len() - 1] == '/') {
        out.push('/');
        proof {
            assert(out@ =~= acc@ + seq!['/']);
        }
    }
    crate::text::append_chars(&mut out, comp);
    proof {
        if acc@.len() == 0 || acc@.last() == '/' {
            assert(out@ =~= acc@ + comp@);
        } else {
            assert(out@ =~= acc@ + seq!['/'] + comp@);
        }
    }
    out
}

/// The prefix-validation walk as a step machine: the caller asks for the next
/// path to test with `query`, answers with `answer`, and reads the outcome
/// with `result` once `query` yields nothing more.
pub struct PathWalk {
    pub segments: Vec<Vec<char>>,
    pub next: usize,
    pub acc: Vec<char>,
    pub failed: bool,
    pub hint: Vec<char>,
}

impl PathWalk {
    /// The walk never runs past its segments, and the hint is set exactly
    /// when the walk has failed.
    pub open spec fn wf(self) -> bool {
        self.next <= self.segments@.len() && (!self.failed ==> self.hint@ == Seq::<char>::empty())
    }

    /// Whether every segment has been consumed or the walk has stopped early.
    pub open spec fn done(self) -> bool {
        self.failed || self.next == self.segments@.len()
    }

    /// Sets up the walk over `path`: its segments in order, the accumulator
    /// holding the root marker exactly when the path begins with one.
    pub fn start(path: &Vec<char>) -> (r: PathWalk)
        ensures
            r.wf(),
            r.segments.deep_view() == spec_segments(path@),
            r.next == 0,
            !r.failed,
            r.acc@ == walk_state(spec_has_root(path@), spec_segments(path@), Seq::empty(), 0).0,
            r.hint@ == Seq::<char>::empty(),
    {
        let segments = split_segments(path);
        let mut acc: Vec<char> = Vec::new();
        if path.len() > 0 && (path[0] == '/' || path[0] == '\\') {
            acc.push('/');
            proof {
                assert(acc@ =~= seq!['/']);
            }
        }
        PathWalk { segments, next: 0, acc, failed: false, hint: Vec::new() }
    }

    /// The next path whose existence the walk needs to know, if any: the
    /// accumulator joined with the next untested segment.
    pub fn query(&self) -> (r: Option<Vec<char>>)
        requires
            self.wf(),
        ensures
            self.done() ==> r is None,
            !self.done() ==> (r matches Some(t) && t@ == spec_join(
                self.acc@,
                self.segments.deep_view()[self.next as int],
            )),
    {
        if self.failed || self.next >= self.segments.len() {
            None
        } else {
            proof {
                lemma_deep_index(self.segments, self.next as int);
            }
            Some(join_path(&self.acc, &self.segments[self.next]))
        }
    }

    /// Consumes one segment: on an existing test path the accumulator grows
    /// to it; otherwise the walk fails and the segment becomes the hint.
    pub fn answer(&mut self, exists: bool)
        requires
            old(self).wf(),
            !old(self).done(),
        ensures
            final(self).wf(),
            final(self).segments@ == old(self).segments@,
            final(self).next == old(self).next + 1,
            exists ==> !final(self).failed && final(self).acc@ == spec_join(
                old(self).acc@,
                old(self).segments.deep_view()[old(self).next as int],
            ) && final(self).hint@ == old(self).hint@,
            !exists ==> final(self).failed && final(self).acc@ == old(self).acc@
                && final(self).hint@ == old(self).segments.deep_view()[old(self).next as int],
    {
        let n = self.segments.len();
        assert(self.next < n);
        proof {
            lemma_deep_index(self.segments, self.next as int);
        }
        if exists {
            let test = join_path(&self.acc, &self.segments[self.next]);
            self.acc = test;
        } else {
            self.failed = true;
            self.hint = clone_chars(&self.segments[self.next]);
        }
        self.next = self.next + 1;
    }

    /// Reads off the finished walk: the validated path, whether the whole
    /// path was valid, and the hint (empty when fully valid).
    pub fn result(&self) -> (r: PathWalkResult)
        requires
            self.wf(),
            self.done(),
        ensures
            r.validated_path@ == self.acc@,
            r.is_fully_valid == !self.failed,
            r.hint@ == self.hint@,
    {
        PathWalkResult {
            validated_path: clone_chars(&self.acc),
            is_fully_valid: !self.failed,
            hint: clone_chars(&self.hint),
        }
    }
}

/// Whether `p` is one of the paths in `existing`.
pub fn contains_path(existing: &Vec<Vec<char>>, p: &Vec<char>) -> (r: bool)
    ensures
        r == existing.deep_view().contains(p@),
{
    let mut i: usize = 0;
    while i < existing.len()
        invariant
            i <= existing@.len(),
            forall|k: int| 0 <= k < i ==> existing.deep_view()[k] != p@,
        decreases existing@.len() - i,
    {
        proof {
            lemma_deep_index(*existing, i as int);
        }
        if eq_chars(&existing[i], p) {
            return true;
        }
        i = i + 1;
    }
    proof {
        assert(forall|k: int|
            0 <= k < existing.deep_view().len() ==> existing.deep_view()[k] != p@);
    }
    false
}

/// Runs the whole walk over `path`, deciding existence by membership in
/// `existing`: the walk validates each component in turn from the root and
/// stops at the first that does not exist, which becomes the hint.
pub fn resolve_against(path: &Vec<char>, existing: &Vec<Vec<char>>) -> (r: PathWalkResult)
    ensures
        r.validated_path@ == spec_resolve(path@, existing.deep_view()).0,
        r.is_fully_valid == !spec_resolve(path@, existing.deep_view()).1,
        r.hint@ == spec_resolve(path@, existing.deep_view()).2,
{
    let ghost root = spec_has_root(path@);
    let ghost segs = spec_segments(path@);
    let ghost ex = existing.deep_view();
    let mut walk = PathWalk::start(path);
    loop
        invariant
            root == spec_has_root(path@),
            segs == spec_segments(path@),
            ex == existing.deep_view(),
            walk.wf(),
            walk.segments.deep_view() == segs,
            (walk.acc@, walk.failed, walk.hint@) == walk_state(root, segs, ex, walk.next as int),
        decreases segs.len() - walk.next + if walk.failed {
            0int
        } else {
            1int
        },
    {
        let q = walk.query();
        match q {
            Option::None => {
                proof {
                    if walk.failed {
                        lemma_walk_stable(root, segs, ex, walk.next as int, segs.len() as int);
                    }
                }
                return walk.result();
            },
            Option::Some(test) => {
                let ghost pre = walk;
                let ex_here = contains_path(existing, &test);
                walk.answer(ex_here);
                proof {
                    let k = pre.next as int;
                    assert(walk_state(root, segs, ex, k + 1) == (walk.acc@, walk.failed, walk.hint@));
                }
            },
        }
    }
}

} // verus!
