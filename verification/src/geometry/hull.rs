//! The monotone chain that finds a convex hull, as a machine that asks.
//!
//! A hull is found by walking the points from left to right and back and
//! keeping a chain of corners. Whether the chain keeps turning the same way
//! when a point is added is a cross product, which the caller works out: the
//! machine asks for the turn of three points, the caller answers, and the
//! machine drops a corner or takes the point in.

use crate::geometry::vertex::Vertex;
use crate::geometry::vertices::Vertices;
use crate::scalar::Scalar;
use vstd::prelude::*;

verus! {

/// How far a hull has come: the chain from left to right, the chain back
/// from right to left, or both are there.
#[derive(Clone, Copy, Debug)]
pub enum HullPhase {
    Lower,
    Upper,
    Done,
}

/// A convex hull in the making.
#[derive(Debug)]
pub struct HullChain {
    points: Vec<Vertex>,
    lower: Vec<Vertex>,
    upper: Vec<Vertex>,
    taken: usize,
    phase: HullPhase,
}

/// A hull in the making as a value: the points in the order in which they
/// are walked, the two chains, and how many points the chain that is being
/// built has dealt with.
pub struct HullChainView {
    pub points: Seq<Vertex>,
    pub lower: Seq<Vertex>,
    pub upper: Seq<Vertex>,
    pub taken: nat,
    pub phase: HullPhase,
}

impl View for HullChain {
    type V = HullChainView;

    closed spec fn view(&self) -> HullChainView {
        HullChainView {
            points: self.points@,
            lower: self.lower@,
            upper: self.upper@,
            taken: self.taken as nat,
            phase: self.phase,
        }
    }
}

/// `chain` without its last corner.
pub open spec fn without_last(chain: Seq<Vertex>) -> Seq<Vertex> {
    if chain.len() == 0 {
        chain
    } else {
        chain.drop_last()
    }
}

impl HullChainView {
    /// Nothing has been walked yet.
    pub open spec fn start(points: Seq<Vertex>) -> HullChainView {
        HullChainView {
            points,
            lower: Seq::empty(),
            upper: Seq::empty(),
            taken: 0,
            phase: HullPhase::Lower,
        }
    }

    /// The chains hold points of the walk only, no more points are dealt
    /// with than there are, and the chain back is not begun before the chain
    /// out is done.
    pub open spec fn wf(self) -> bool {
        &&& self.taken <= self.points.len()
        &&& self.phase is Lower ==> self.upper.len() == 0
        &&& forall|i: int| 0 <= i < self.lower.len() ==> self.points.contains(#[trigger] self.lower[i])
        &&& forall|i: int| 0 <= i < self.upper.len() ==> self.points.contains(#[trigger] self.upper[i])
    }

    /// The chain that is being built.
    pub open spec fn chain(self) -> Seq<Vertex> {
        match self.phase {
            HullPhase::Lower => self.lower,
            HullPhase::Upper => self.upper,
            HullPhase::Done => Seq::empty(),
        }
    }

    /// The point that comes next: from the left for the first chain, from the
    /// right for the second.
    pub open spec fn coming(self) -> Vertex {
        match self.phase {
            HullPhase::Upper => self.points[self.points.len() - 1 - self.taken],
            _ => self.points[self.taken as int],
        }
    }

    /// A point is waiting and the chain is long enough to turn.
    pub open spec fn asks(self) -> bool {
        &&& !(self.phase is Done)
        &&& self.taken < self.points.len()
        &&& self.chain().len() >= 2
    }

    /// The three points whose turn decides the next step: the two corners
    /// last kept and the point that comes.
    pub open spec fn question(self) -> Option<(Vertex, Vertex, Vertex)> {
        if self.asks() {
            Some(
                (
                    self.chain()[self.chain().len() - 2],
                    self.chain()[self.chain().len() - 1],
                    self.coming(),
                ),
            )
        } else {
            None
        }
    }

    /// The point that comes is taken into the chain.
    pub open spec fn kept(self) -> HullChainView {
        match self.phase {
            HullPhase::Lower => HullChainView {
                lower: self.lower.push(self.coming()),
                taken: self.taken + 1,
                ..self
            },
            HullPhase::Upper => HullChainView {
                upper: self.upper.push(self.coming()),
                taken: self.taken + 1,
                ..self
            },
            HullPhase::Done => self,
        }
    }

    /// The corner last kept is dropped from the chain.
    pub open spec fn dropped(self) -> HullChainView {
        match self.phase {
            HullPhase::Lower => HullChainView { lower: without_last(self.lower), ..self },
            HullPhase::Upper => HullChainView { upper: without_last(self.upper), ..self },
            HullPhase::Done => self,
        }
    }

    /// The step that follows an answer: a turn that is not above zero drops
    /// the corner last kept, so that the same point asks again; any other
    /// takes the point in. Where nothing was asked, nothing changes.
    pub open spec fn answered(self, turn: Scalar) -> HullChainView {
        if !self.asks() {
            self
        } else if turn.le(Scalar::zero()) {
            self.dropped()
        } else {
            self.kept()
        }
    }

    /// How many points of this walk are still to come, counted so that the
    /// walk back ranks below the walk out.
    pub open spec fn rank(self) -> nat {
        match self.phase {
            HullPhase::Lower => self.points.len() + 2 + self.to_come(),
            HullPhase::Upper => 1 + self.to_come(),
            HullPhase::Done => 0,
        }
    }

    /// How many points the chain that is being built has not dealt with.
    pub open spec fn to_come(self) -> nat {
        if self.taken <= self.points.len() {
            (self.points.len() - self.taken) as nat
        } else {
            0
        }
    }

    /// All steps taken that need no answer: a chain of fewer than two corners
    /// takes the point that comes, and a chain that has dealt with every
    /// point gives way to the next chain.
    pub open spec fn settled(self) -> HullChainView
        decreases self.rank(),
    {
        match self.phase {
            HullPhase::Done => self,
            HullPhase::Lower => if self.taken >= self.points.len() {
                (HullChainView { phase: HullPhase::Upper, taken: 0, ..self }).settled()
            } else if self.lower.len() < 2 {
                self.kept().settled()
            } else {
                self
            },
            HullPhase::Upper => if self.taken >= self.points.len() {
                HullChainView { phase: HullPhase::Done, taken: 0, ..self }
            } else if self.upper.len() < 2 {
                self.kept().settled()
            } else {
                self
            },
        }
    }

    /// The hull: the chain back and then the chain out, each without its
    /// last corner, which is the first corner of the other.
    pub open spec fn result(self) -> Seq<Vertex> {
        without_last(self.upper) + without_last(self.lower)
    }

    /// An upper bound on the answers that are still needed.
    pub open spec fn work_left(self) -> nat {
        match self.phase {
            HullPhase::Lower => 2 * self.to_come() + 2 * self.points.len() + self.lower.len(),
            HullPhase::Upper => 2 * self.to_come() + self.upper.len(),
            HullPhase::Done => 0,
        }
    }
}

impl HullChain {
    /// A hull of `sorted`, which are walked in the order given.
    pub fn new(sorted: Vec<Vertex>) -> (hull: HullChain)
        ensures
            hull@ == HullChainView::start(sorted@),
            hull@.wf(),
    {
        HullChain {
            points: sorted,
            lower: Vec::new(),
            upper: Vec::new(),
            taken: 0,
            phase: HullPhase::Lower,
        }
    }

    /// Takes every step that needs no answer and then says which three
    /// points it needs the turn of. It asks nothing once the hull is done.
    pub fn ask(&mut self) -> (question: Option<(Vertex, Vertex, Vertex)>)
        ensures
            final(self)@ == old(self)@.settled(),
            question == final(self)@.question(),
            question is None <==> final(self)@.phase is Done,
            old(self)@.wf() ==> final(self)@.wf(),
    {
        loop
            invariant
                old(self)@.wf() ==> self@.wf(),
                self@.settled() == old(self)@.settled(),
            ensures
                self@ == old(self)@.settled(),
                old(self)@.wf() ==> self@.wf(),
                self@.phase is Done || self@.asks(),
            decreases self@.rank(),
        {
            let count = self.points.len();
            match self.phase {
                HullPhase::Done => {
                    break;
                },
                HullPhase::Lower => {
                    if self.taken >= count {
                        self.phase = HullPhase::Upper;
                        self.taken = 0;
                    } else if self.lower.len() < 2 {
                        proof {
                            if self@.wf() {
                                lemma_kept_wf(self@);
                            }
                        }
                        let point = self.points[self.taken];
                        self.lower.push(point);
                        self.taken = self.taken + 1;
                    } else {
                        break;
                    }
                },
                HullPhase::Upper => {
                    if self.taken >= count {
                        self.phase = HullPhase::Done;
                        self.taken = 0;
                    } else if self.upper.len() < 2 {
                        proof {
                            if self@.wf() {
                                lemma_kept_wf(self@);
                            }
                        }
                        let point = self.points[count - 1 - self.taken];
                        self.upper.push(point);
                        self.taken = self.taken + 1;
                    } else {
                        break;
                    }
                },
            }
        }
        let count = self.points.len();
        match self.phase {
            HullPhase::Done => None,
            HullPhase::Lower => {
                let len = self.lower.len();
                Some((self.lower[len - 2], self.lower[len - 1], self.points[self.taken]))
            },
            HullPhase::Upper => {
                let len = self.upper.len();
                Some(
                    (
                        self.upper[len - 2],
                        self.upper[len - 1],
                        self.points[count - 1 - self.taken],
                    ),
                )
            },
        }
    }

    /// Takes the turn of the three points that were asked for and makes the
    /// step that follows from it.
    pub fn answer(&mut self, turn: Scalar)
        ensures
            final(self)@ == old(self)@.answered(turn),
            old(self)@.wf() ==> final(self)@.wf(),
    {
        proof {
            if self@.wf() && self@.asks() {
                lemma_answer_makes_progress(self@, turn);
            }
        }
        let count = self.points.len();
        let drop = turn.le(Scalar::zero());
        match self.phase {
            HullPhase::Done => {},
            HullPhase::Lower => {
                if self.taken < count && self.lower.len() >= 2 {
                    if drop {
                        self.lower.pop();
                    } else {
                        let point = self.points[self.taken];
                        self.lower.push(point);
                        self.taken = self.taken + 1;
                    }
                }
            },
            HullPhase::Upper => {
                if self.taken < count && self.upper.len() >= 2 {
                    if drop {
                        self.upper.pop();
                    } else {
                        let point = self.points[count - 1 - self.taken];
                        self.upper.push(point);
                        self.taken = self.taken + 1;
                    }
                }
            },
        }
    }

    /// The hull is done: nothing will be asked any more.
    pub fn is_done(&self) -> (done: bool)
        ensures
            done == (self@.phase is Done),
    {
        match self.phase {
            HullPhase::Done => true,
            _ => false,
        }
    }

    /// The hull as a polygon.
    pub fn finish(self) -> (hull: Vertices)
        ensures
            hull@ == self@.result(),
            self@.wf() ==> forall|i: int|
                0 <= i < hull@.len() ==> self@.points.contains(#[trigger] hull@[i]),
    {
        proof {
            if self@.wf() {
                lemma_result_of_points(self@);
            }
        }
        let mut upper = self.upper;
        let mut lower = self.lower;
        upper.pop();
        lower.pop();
        upper.append(&mut lower);
        Vertices::from_value(upper)
    }
}

/// Steps that need no answer never add to the work that is left.
pub proof fn lemma_settled_work(hull: HullChainView)
    requires
        hull.wf(),
    ensures
        hull.settled().wf(),
        hull.settled().work_left() <= hull.work_left(),
        hull.settled().points == hull.points,
        hull.settled().phase is Done || hull.settled().asks(),
    decreases hull.rank(),
{
    match hull.phase {
        HullPhase::Done => {},
        HullPhase::Lower => {
            if hull.taken >= hull.points.len() {
                lemma_settled_work(HullChainView { phase: HullPhase::Upper, taken: 0, ..hull });
            } else if hull.lower.len() < 2 {
                lemma_kept_wf(hull);
                lemma_settled_work(hull.kept());
            }
        },
        HullPhase::Upper => {
            if hull.taken >= hull.points.len() {
            } else if hull.upper.len() < 2 {
                lemma_kept_wf(hull);
                lemma_settled_work(hull.kept());
            }
        },
    }
}

/// Taking the point that comes keeps the chains within the points.
proof fn lemma_kept_wf(hull: HullChainView)
    requires
        hull.wf(),
        hull.taken < hull.points.len(),
    ensures
        hull.kept().wf(),
{
    assert(hull.points.contains(hull.coming()));
    match hull.phase {
        HullPhase::Lower => {
            assert forall|i: int| 0 <= i < hull.kept().lower.len() implies hull.points.contains(
                #[trigger] hull.kept().lower[i],
            ) by {
                if i < hull.lower.len() {
                    assert(hull.kept().lower[i] == hull.lower[i]);
                }
            }
        },
        HullPhase::Upper => {
            assert forall|i: int| 0 <= i < hull.kept().upper.len() implies hull.points.contains(
                #[trigger] hull.kept().upper[i],
            ) by {
                if i < hull.upper.len() {
                    assert(hull.kept().upper[i] == hull.upper[i]);
                }
            }
        },
        HullPhase::Done => {},
    }
}

/// Every answer brings the hull nearer: between one question and the next,
/// the work that is left shrinks. So asking and answering comes to an end,
/// whatever the answers are.
pub proof fn lemma_answer_makes_progress(hull: HullChainView, turn: Scalar)
    requires
        hull.wf(),
        hull.asks(),
    ensures
        hull.answered(turn).wf(),
        hull.answered(turn).settled().work_left() < hull.work_left(),
{
    if turn.le(Scalar::zero()) {
        let after = hull.dropped();
        match hull.phase {
            HullPhase::Lower => {
                assert forall|i: int| 0 <= i < after.lower.len() implies hull.points.contains(
                    #[trigger] after.lower[i],
                ) by {
                    assert(after.lower[i] == hull.lower[i]);
                }
            },
            HullPhase::Upper => {
                assert forall|i: int| 0 <= i < after.upper.len() implies hull.points.contains(
                    #[trigger] after.upper[i],
                ) by {
                    assert(after.upper[i] == hull.upper[i]);
                }
            },
            HullPhase::Done => {},
        }
        lemma_settled_work(after);
    } else {
        lemma_kept_wf(hull);
        lemma_settled_work(hull.kept());
    }
}

/// The hull is made of points that were walked, and of no others.
pub proof fn lemma_result_of_points(hull: HullChainView)
    requires
        hull.wf(),
    ensures
        forall|i: int| 0 <= i < hull.result().len() ==> hull.points.contains(
            #[trigger] hull.result()[i],
        ),
{
    assert forall|i: int| 0 <= i < hull.result().len() implies hull.points.contains(
        #[trigger] hull.result()[i],
    ) by {
        let upper = without_last(hull.upper);
        let lower = without_last(hull.lower);
        if i < upper.len() {
            assert(hull.result()[i] == hull.upper[i]);
        } else {
            assert(hull.result()[i] == hull.lower[i - upper.len()]);
        }
    }
}

/// The chain once the point `coming` is dealt with: corners are dropped from
/// its end as long as two are left and the turn of the last two with
/// `coming` is not above zero; then `coming` is taken in.
pub open spec fn chain_with(
    chain: Seq<Vertex>,
    coming: Vertex,
    turn: spec_fn(Vertex, Vertex, Vertex) -> Scalar,
) -> Seq<Vertex>
    decreases chain.len(),
{
    if chain.len() >= 2 && turn(chain[chain.len() - 2], chain[chain.len() - 1], coming).le(
        Scalar::zero(),
    ) {
        chain_with(chain.drop_last(), coming, turn)
    } else {
        chain.push(coming)
    }
}

/// The chain once the points of `walk` from place `from` on are dealt with,
/// one after the other.
pub open spec fn chain_over(
    chain: Seq<Vertex>,
    walk: Seq<Vertex>,
    from: nat,
    turn: spec_fn(Vertex, Vertex, Vertex) -> Scalar,
) -> Seq<Vertex>
    decreases walk.len() - from,
{
    if from >= walk.len() {
        chain
    } else {
        chain_over(chain_with(chain, walk[from as int], turn), walk, from + 1, turn)
    }
}

/// The hull that the monotone chain finds for points in walking order, with
/// `turn` saying how three points turn: the chain over the walk back and
/// then the chain over the walk out, each without its last corner.
pub open spec fn hull_of(points: Seq<Vertex>, turn: spec_fn(Vertex, Vertex, Vertex) -> Scalar) -> Seq<
    Vertex,
> {
    without_last(chain_over(Seq::empty(), points.reverse(), 0, turn)) + without_last(
        chain_over(Seq::empty(), points, 0, turn),
    )
}

impl HullChainView {
    /// The answer that `turn` gives to the question that is asked.
    pub open spec fn turn_asked(self, turn: spec_fn(Vertex, Vertex, Vertex) -> Scalar) -> Scalar {
        turn(self.question()->Some_0.0, self.question()->Some_0.1, self.question()->Some_0.2)
    }

    /// Where the hull ends up when every question is answered by `turn`.
    pub open spec fn finished(
        self,
        turn: spec_fn(Vertex, Vertex, Vertex) -> Scalar,
    ) -> HullChainView
        decreases self.settled().work_left(),
        when self.wf()
    {
        if self.settled().phase is Done {
            self.settled()
        } else {
            proof {
                lemma_settled_work(self);
                lemma_answer_makes_progress(self.settled(), self.settled().turn_asked(turn));
            }
            self.settled().answered(self.settled().turn_asked(turn)).finished(turn)
        }
    }

    /// The hull that the chains are on their way to, if `turn` says how
    /// points turn.
    pub open spec fn heading_for(
        self,
        turn: spec_fn(Vertex, Vertex, Vertex) -> Scalar,
    ) -> Seq<Vertex> {
        match self.phase {
            HullPhase::Lower => without_last(
                chain_over(Seq::empty(), self.points.reverse(), 0, turn),
            ) + without_last(chain_over(self.lower, self.points, self.taken, turn)),
            HullPhase::Upper => without_last(
                chain_over(self.upper, self.points.reverse(), self.taken, turn),
            ) + without_last(self.lower),
            HullPhase::Done => self.result(),
        }
    }
}

/// Steps that need no answer do not change where the chains are heading.
proof fn lemma_settled_heading(hull: HullChainView, turn: spec_fn(Vertex, Vertex, Vertex) -> Scalar)
    requires
        hull.wf(),
    ensures
        hull.settled().heading_for(turn) == hull.heading_for(turn),
    decreases hull.rank(),
{
    let count = hull.points.len();
    match hull.phase {
        HullPhase::Done => {},
        HullPhase::Lower => {
            if hull.taken >= count {
                let next = HullChainView { phase: HullPhase::Upper, taken: 0, ..hull };
                lemma_settled_heading(next, turn);
                assert(hull.upper =~= Seq::empty());
            } else if hull.lower.len() < 2 {
                lemma_kept_wf(hull);
                lemma_settled_heading(hull.kept(), turn);
            }
        },
        HullPhase::Upper => {
            if hull.taken >= count {
            } else if hull.upper.len() < 2 {
                lemma_kept_wf(hull);
                lemma_settled_heading(hull.kept(), turn);
            }
        },
    }
}

/// An answer that `turn` gives does not change where the chains are heading.
proof fn lemma_answered_heading(hull: HullChainView, turn: spec_fn(Vertex, Vertex, Vertex) -> Scalar)
    requires
        hull.wf(),
        hull.asks(),
    ensures
        hull.answered(hull.turn_asked(turn)).heading_for(turn) == hull.heading_for(turn),
{
}

/// Answered by `turn` throughout, the machine ends with the hull that it was
/// heading for.
proof fn lemma_finished_heading(hull: HullChainView, turn: spec_fn(Vertex, Vertex, Vertex) -> Scalar)
    requires
        hull.wf(),
    ensures
        hull.finished(turn).phase is Done,
        hull.finished(turn).result() == hull.heading_for(turn),
        hull.finished(turn).points == hull.points,
    decreases hull.settled().work_left(),
{
    lemma_settled_work(hull);
    lemma_settled_heading(hull, turn);
    let settled = hull.settled();
    if !(settled.phase is Done) {
        let answer = settled.turn_asked(turn);
        lemma_answer_makes_progress(settled, answer);
        lemma_answered_heading(settled, turn);
        lemma_finished_heading(settled.answered(answer), turn);
    }
}

/// The machine finds the hull of the monotone chain: whatever function says
/// how three points turn, if every question is answered by it, asking and
/// answering ends, and it ends with the hull that the chain over the walk
/// out and the chain over the walk back give for that function.
pub proof fn lemma_machine_finds_hull(
    points: Seq<Vertex>,
    turn: spec_fn(Vertex, Vertex, Vertex) -> Scalar,
)
    ensures
        HullChainView::start(points).finished(turn).phase is Done,
        HullChainView::start(points).finished(turn).result() == hull_of(points, turn),
{
    lemma_finished_heading(HullChainView::start(points), turn);
}

/// The chain turns one way: of any three corners in a row, the turn was not
/// found to be zero or below.
pub open spec fn turns_one_way(
    chain: Seq<Vertex>,
    turn: spec_fn(Vertex, Vertex, Vertex) -> Scalar,
) -> bool {
    forall|i: int|
        0 <= i && i + 2 < chain.len() ==> !(#[trigger] turn(chain[i], chain[i + 1], chain[i + 2])).le(
            Scalar::zero(),
        )
}

/// A chain that turns one way still does once a point is dealt with.
pub proof fn lemma_chain_with_turns_one_way(
    chain: Seq<Vertex>,
    coming: Vertex,
    turn: spec_fn(Vertex, Vertex, Vertex) -> Scalar,
)
    requires
        turns_one_way(chain, turn),
    ensures
        turns_one_way(chain_with(chain, coming, turn), turn),
    decreases chain.len(),
{
    if chain.len() >= 2 && turn(chain[chain.len() - 2], chain[chain.len() - 1], coming).le(
        Scalar::zero(),
    ) {
        let shorter = chain.drop_last();
        assert forall|i: int| 0 <= i && i + 2 < shorter.len() implies !(#[trigger] turn(
            shorter[i],
            shorter[i + 1],
            shorter[i + 2],
        )).le(Scalar::zero()) by {
            assert(shorter[i] == chain[i]);
            assert(shorter[i + 1] == chain[i + 1]);
            assert(shorter[i + 2] == chain[i + 2]);
        }
        lemma_chain_with_turns_one_way(shorter, coming, turn);
    } else {
        let longer = chain.push(coming);
        assert forall|i: int| 0 <= i && i + 2 < longer.len() implies !(#[trigger] turn(
            longer[i],
            longer[i + 1],
            longer[i + 2],
        )).le(Scalar::zero()) by {
            assert(longer[i] == chain[i]);
            assert(longer[i + 1] == chain[i + 1]);
            if i + 2 < chain.len() {
                assert(longer[i + 2] == chain[i + 2]);
            } else {
                assert(longer[i + 2] == coming);
            }
        }
    }
}

/// A chain that turns one way still does once a walk is dealt with.
pub proof fn lemma_chain_over_turns_one_way(
    chain: Seq<Vertex>,
    walk: Seq<Vertex>,
    from: nat,
    turn: spec_fn(Vertex, Vertex, Vertex) -> Scalar,
)
    requires
        turns_one_way(chain, turn),
    ensures
        turns_one_way(chain_over(chain, walk, from, turn), turn),
    decreases walk.len() - from,
{
    if from < walk.len() {
        lemma_chain_with_turns_one_way(chain, walk[from as int], turn);
        lemma_chain_over_turns_one_way(
            chain_with(chain, walk[from as int], turn),
            walk,
            from + 1,
            turn,
        );
    }
}

/// Both halves of a hull turn one way: the chain back and the chain out,
/// of which the hull is made, have no corner at which the turn was found to
/// be zero or below.
pub proof fn lemma_hull_turns_one_way(
    points: Seq<Vertex>,
    turn: spec_fn(Vertex, Vertex, Vertex) -> Scalar,
)
    ensures
        turns_one_way(without_last(chain_over(Seq::empty(), points.reverse(), 0, turn)), turn),
        turns_one_way(without_last(chain_over(Seq::empty(), points, 0, turn)), turn),
{
    lemma_chain_over_turns_one_way(Seq::empty(), points.reverse(), 0, turn);
    lemma_chain_over_turns_one_way(Seq::empty(), points, 0, turn);
    let back = chain_over(Seq::empty(), points.reverse(), 0, turn);
    let out = chain_over(Seq::empty(), points, 0, turn);
    assert forall|i: int| 0 <= i && i + 2 < without_last(back).len() implies !(#[trigger] turn(
        without_last(back)[i],
        without_last(back)[i + 1],
        without_last(back)[i + 2],
    )).le(Scalar::zero()) by {
        assert(without_last(back)[i] == back[i]);
        assert(without_last(back)[i + 1] == back[i + 1]);
        assert(without_last(back)[i + 2] == back[i + 2]);
    }
    assert forall|i: int| 0 <= i && i + 2 < without_last(out).len() implies !(#[trigger] turn(
        without_last(out)[i],
        without_last(out)[i + 1],
        without_last(out)[i + 2],
    )).le(Scalar::zero()) by {
        assert(without_last(out)[i] == out[i]);
        assert(without_last(out)[i + 1] == out[i + 1]);
        assert(without_last(out)[i + 2] == out[i + 2]);
    }
}

} // verus!
