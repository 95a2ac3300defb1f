//! Priority resolution - the single source of truth for which candidate wins a
//! pixel, and the tie-break when priorities are equal.
//!
//! No other module orders candidates. BG/OBJ generators only produce candidates;
//! blending only consumes the resolved top and second. Keeping the rule here means
//! there is exactly one place to test and to explain.

use vstd::prelude::*;

use super::debug::explain::{ResolvedExplanation, TieBreak};
use super::state::CandidatePixel;

verus! {

/// The candidates competing for one screen position. The backdrop is always
/// present, so there is always at least one.
pub struct CandidateSet {
    items: [CandidatePixel; 6],
    len: usize,
}

impl View for CandidateSet {
    type V = Seq<CandidatePixel>;

    closed spec fn view(&self) -> Seq<CandidatePixel> {
        self.items@.take(self.len as int)
    }
}

/// A set with a candidate added; a transparent pixel adds none, and neither does a
/// seventh candidate.
pub open spec fn with_candidate(
    set: Seq<CandidatePixel>,
    candidate: Option<CandidatePixel>,
) -> Seq<CandidatePixel> {
    match candidate {
        Some(pixel) => if set.len() < 6 {
            set.push(pixel)
        } else {
            set
        },
        None => set,
    }
}

impl CandidateSet {
    /// There is a candidate, and no more than there is room for.
    #[verifier::type_invariant]
    spec fn in_range(self) -> bool {
        1 <= self.len <= 6
    }

    /// Start a set with the always-present backdrop candidate.
    pub fn new(backdrop: CandidatePixel) -> (set: Self)
        ensures
            set@ == seq![backdrop],
    {
        let set = CandidateSet { items: [backdrop; 6], len: 1 };
        assert(set@ =~= seq![backdrop]);
        set
    }

    /// Add an opaque candidate (a `None` transparent pixel is ignored).
    pub fn push(&mut self, candidate: Option<CandidatePixel>)
        ensures
            final(self)@ == with_candidate(old(self)@, candidate),
    {
        proof {
            use_type_invariant(&*self);
        }
        if let Some(candidate) = candidate {
            if self.len < 6 {
                let len: usize = self.len;
                self.items[len] = candidate;
                self.len = len + 1;
                assert(self@ =~= old(self)@.push(candidate));
            }
        }
    }

    /// The number of candidates.
    pub fn len(&self) -> (len: usize)
        ensures
            len == self@.len(),
            len >= 1,
    {
        proof {
            use_type_invariant(self);
        }
        self.len
    }

    /// One of the candidates, in the order in which they were added.
    pub fn candidate(&self, i: usize) -> (candidate: CandidatePixel)
        requires
            i < self@.len(),
        ensures
            candidate == self@[i as int],
    {
        proof {
            use_type_invariant(self);
        }
        self.items[i]
    }

    /// The candidates, in the order in which they were added.
    pub fn as_slice(&self) -> (candidates: &[CandidatePixel])
        ensures
            candidates@ == self@,
    {
        proof {
            use_type_invariant(self);
        }
        vstd::slice::slice_subrange(self.items.as_slice(), 0, self.len)
    }
}

/// The two front-most candidates. `second` is needed for alpha blending.
#[derive(Clone, Copy, Debug, PartialEq, Eq, Structural)]
pub struct ResolvedPixel {
    pub top: CandidatePixel,
    pub second: CandidatePixel,
}

/// Lower is more on top: sort by priority, then by layer tie-break rank.
pub open spec fn order(candidate: CandidatePixel) -> int {
    candidate.priority * 8 + candidate.layer.tiebreak_rank()
}

/// Lower is more on top: sort by priority, then by layer tie-break rank.
fn ordering_key(candidate: &CandidatePixel) -> (key: u16)
    ensures
        key == order(*candidate),
{
    candidate.priority as u16 * 8 + candidate.layer.tiebreak_rank() as u16
}

/// The front-most of the candidates: the earliest of those with the least key.
pub open spec fn top_of(items: Seq<CandidatePixel>) -> CandidatePixel
    decreases items.len(),
{
    if items.len() <= 1 {
        items[0]
    } else if order(items.last()) < order(top_of(items.drop_last())) {
        items.last()
    } else {
        top_of(items.drop_last())
    }
}

/// The candidate behind the front-most; the front-most itself where it is alone.
pub open spec fn second_of(items: Seq<CandidatePixel>) -> CandidatePixel
    decreases items.len(),
{
    if items.len() <= 1 {
        items[0]
    } else if order(items.last()) < order(top_of(items.drop_last())) {
        top_of(items.drop_last())
    } else if items.len() == 2 || order(items.last()) < order(second_of(items.drop_last())) {
        items.last()
    } else {
        second_of(items.drop_last())
    }
}

/// The two front-most of the candidates.
pub open spec fn resolved(items: Seq<CandidatePixel>) -> ResolvedPixel {
    ResolvedPixel { top: top_of(items), second: second_of(items) }
}

/// Resolve the candidate set to its top and second candidates.
pub fn resolve(set: &CandidateSet) -> (pixel: ResolvedPixel)
    ensures
        pixel == resolved(set@),
{
    let len: usize = set.len();
    let mut top = set.candidate(0);
    let mut second = set.candidate(0);
    let mut have_second = false;
    let mut i: usize = 1;
    while i < len
        invariant
            1 <= i <= len,
            len == set@.len(),
            top == top_of(set@.take(i as int)),
            second == second_of(set@.take(i as int)),
            have_second == (i >= 2),
        decreases len - i,
    {
        let candidate = set.candidate(i);
        assert(set@.take(i + 1).drop_last() =~= set@.take(i as int));
        assert(set@.take(i + 1).last() == candidate);
        if ordering_key(&candidate) < ordering_key(&top) {
            second = top;
            top = candidate;
        } else if !have_second || ordering_key(&candidate) < ordering_key(&second) {
            second = candidate;
        }
        have_second = true;
        i = i + 1;
    }
    assert(set@.take(len as int) =~= set@);
    ResolvedPixel { top, second }
}

impl ResolvedPixel {
    /// Build the structured explanation of how `top` beat `second`.
    #[verifier::allow_in_spec]
    pub fn explain(&self) -> ResolvedExplanation
        returns
            (ResolvedExplanation {
                top: self.top,
                second: self.second,
                tie_break: TieBreak {
                    winner: self.top.layer,
                    over: self.second.layer,
                    by_priority: self.top.priority < self.second.priority,
                },
            }),
    {
        ResolvedExplanation {
            top: self.top,
            second: self.second,
            tie_break: TieBreak {
                winner: self.top.layer,
                over: self.second.layer,
                by_priority: self.top.priority < self.second.priority,
            },
        }
    }
}

/// The top candidate is one of the candidates and none is in front of it.
pub proof fn top_is_front_most(items: Seq<CandidatePixel>)
    requires
        items.len() > 0,
    ensures
        items.contains(top_of(items)),
        forall|k: int| 0 <= k < items.len() ==> order(top_of(items)) <= order(#[trigger] items[k]),
    decreases items.len(),
{
    if items.len() > 1 {
        let shorter = items.drop_last();
        top_is_front_most(shorter);
        let k = choose|k: int| 0 <= k < shorter.len() && shorter[k] == top_of(shorter);
        assert(items[k] == top_of(shorter));
        assert forall|k: int| 0 <= k < items.len() implies order(top_of(items)) <= order(
            #[trigger] items[k],
        ) by {
            if k < items.len() - 1 {
                assert(shorter[k] == items[k]);
            }
        }
    } else {
        assert(items[0] == top_of(items));
    }
}

/// Of two or more candidates, the second is one of them, and only the top can be in
/// front of it.
pub proof fn second_is_next(items: Seq<CandidatePixel>)
    requires
        items.len() > 1,
    ensures
        exists|t: int, s: int|
            #![trigger items[t], items[s]]
            0 <= t < items.len() && 0 <= s < items.len() && t != s && items[t] == top_of(items)
                && items[s] == second_of(items) && forall|k: int|
                0 <= k < items.len() && k != t ==> order(second_of(items)) <= order(
                    #[trigger] items[k],
                ),
    decreases items.len(),
{
    let shorter = items.drop_last();
    let last = items.len() - 1;
    top_is_front_most(shorter);
    let u = choose|u: int| 0 <= u < shorter.len() && shorter[u] == top_of(shorter);
    assert(items[u] == top_of(shorter));
    if items.len() == 2 {
        if order(items.last()) < order(top_of(shorter)) {
            assert(items[1] == top_of(items) && items[0] == second_of(items));
        } else {
            assert(items[0] == top_of(items) && items[1] == second_of(items));
        }
    } else if order(items.last()) < order(top_of(shorter)) {
        assert forall|k: int| 0 <= k < items.len() && k != last implies order(second_of(items))
            <= order(#[trigger] items[k]) by {
            assert(shorter[k] == items[k]);
        }
        assert(items[last] == top_of(items) && items[u] == second_of(items));
    } else {
        second_is_next(shorter);
        let (t, s) = choose|t: int, s: int|
            #![trigger shorter[t], shorter[s]]
            0 <= t < shorter.len() && 0 <= s < shorter.len() && t != s && shorter[t] == top_of(
                shorter,
            ) && shorter[s] == second_of(shorter) && forall|k: int|
                0 <= k < shorter.len() && k != t ==> order(second_of(shorter)) <= order(
                    #[trigger] shorter[k],
                );
        assert(items[t] == shorter[t] && items[s] == shorter[s]);
        assert forall|k: int| 0 <= k < items.len() && k != t implies order(second_of(items))
            <= order(#[trigger] items[k]) by {
            if k < last {
                assert(shorter[k] == items[k]);
            }
        }
        if order(items.last()) < order(second_of(shorter)) {
            assert(items[t] == top_of(items) && items[last] == second_of(items));
        } else {
            assert(items[t] == top_of(items) && items[s] == second_of(items));
        }
    }
}

/// The key orders by priority first, and by the layer's rank among equals.
pub proof fn priority_comes_first(a: CandidatePixel, b: CandidatePixel)
    ensures
        a.priority < b.priority ==> order(a) < order(b),
        a.priority == b.priority ==> (order(a) < order(b) <==> a.layer.tiebreak_rank()
            < b.layer.tiebreak_rank()),
{
}

} // verus!
