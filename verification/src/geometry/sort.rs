//! Sorting the corners of a polygon, as a machine that asks.
//!
//! The corners are sorted by insertion: each corner in turn moves towards the
//! front past every corner that it comes before. Whether one corner comes
//! before another is for the caller to say, from the angles of the two or
//! from how far apart they lie: the machine asks about two corners, the
//! caller answers, and the machine moves the corner or lets it rest. Corners
//! that neither come before the other stay in the order they were in.

use crate::geometry::vertex::Vertex;
use crate::geometry::vertices::Vertices;
use vstd::prelude::*;

verus! {

/// Corners that are being sorted.
#[derive(Debug)]
pub struct Sorter {
    items: Vec<Vertex>,
    sorted: usize,
    at: usize,
}

/// Corners that are being sorted, as a value: the corners as they stand, how
/// many of them were brought into order, and where the corner that is being
/// brought into order stands.
pub struct SorterView {
    pub items: Seq<Vertex>,
    pub sorted: nat,
    pub at: nat,
}

impl View for Sorter {
    type V = SorterView;

    closed spec fn view(&self) -> SorterView {
        SorterView { items: self.items@, sorted: self.sorted as nat, at: self.at as nat }
    }
}

/// `sorted` with `item` put in its place: after the last corner that it
/// does not come before.
pub open spec fn inserted(
    sorted: Seq<Vertex>,
    item: Vertex,
    before: spec_fn(Vertex, Vertex) -> bool,
) -> Seq<Vertex>
    decreases sorted.len(),
{
    if sorted.len() > 0 && before(item, sorted.last()) {
        inserted(sorted.drop_last(), item, before).push(sorted.last())
    } else {
        sorted.push(item)
    }
}

/// `sorted` with the corners of `items` from place `from` on put in their
/// places, one after the other.
pub open spec fn inserted_all(
    sorted: Seq<Vertex>,
    items: Seq<Vertex>,
    from: nat,
    before: spec_fn(Vertex, Vertex) -> bool,
) -> Seq<Vertex>
    decreases items.len() - from,
{
    if from >= items.len() {
        sorted
    } else {
        inserted_all(inserted(sorted, items[from as int], before), items, from + 1, before)
    }
}

/// The corners sorted by insertion, with `before` saying whether one corner
/// comes before another.
pub open spec fn insertion_sorted(
    items: Seq<Vertex>,
    before: spec_fn(Vertex, Vertex) -> bool,
) -> Seq<Vertex> {
    inserted_all(Seq::empty(), items, 0, before)
}

/// No corner comes before the corner that stands right in front of it.
pub open spec fn in_order(items: Seq<Vertex>, before: spec_fn(Vertex, Vertex) -> bool) -> bool {
    forall|i: int| 0 <= i && i + 1 < items.len() ==> !#[trigger] before(items[i + 1], items[i])
}

impl SorterView {
    /// Nothing is sorted yet.
    pub open spec fn start(items: Seq<Vertex>) -> SorterView {
        SorterView { items, sorted: 0, at: 0 }
    }

    /// The corner that is being brought into order stands among the corners,
    /// not behind the first that is still to come.
    pub open spec fn wf(self) -> bool {
        self.sorted < self.items.len() ==> self.at <= self.sorted
    }

    /// Every corner was brought into order.
    pub open spec fn done(self) -> bool {
        self.sorted >= self.items.len()
    }

    /// A corner is on its way and has a corner in front of it.
    pub open spec fn asks(self) -> bool {
        !self.done() && 0 < self.at <= self.sorted
    }

    /// The two corners that are asked about: the corner on its way, and the
    /// corner in front of it.
    pub open spec fn question(self) -> Option<(Vertex, Vertex)> {
        if self.asks() {
            Some((self.items[self.at as int], self.items[self.at - 1]))
        } else {
            None
        }
    }

    /// The corner on its way rests where it is, and the next corner sets out.
    pub open spec fn rested(self) -> SorterView {
        SorterView { sorted: self.sorted + 1, at: self.sorted + 1, ..self }
    }

    /// The corner on its way changes places with the corner in front of it.
    pub open spec fn moved(self) -> SorterView {
        SorterView {
            items: self.items.update(self.at as int, self.items[self.at - 1]).update(
                self.at - 1,
                self.items[self.at as int],
            ),
            at: (self.at - 1) as nat,
            ..self
        }
    }

    /// The step that follows an answer: a corner that comes before the one
    /// in front of it moves past it, any other rests. Where nothing was
    /// asked, nothing changes.
    pub open spec fn answered(self, before: bool) -> SorterView {
        if !self.asks() {
            self
        } else if before {
            self.moved()
        } else {
            self.rested()
        }
    }

    /// All steps taken that need no answer: a corner that has come to the
    /// front rests there.
    pub open spec fn settled(self) -> SorterView
        decreases self.items.len() - self.sorted,
    {
        if self.done() || self.asks() || !self.wf() {
            self
        } else {
            self.rested().settled()
        }
    }

    /// An upper bound on the answers that are still needed.
    pub open spec fn work_left(self) -> nat {
        if self.done() || !self.wf() {
            0
        } else {
            let to_come = (self.items.len() - self.sorted - 1) as nat;
            (to_come + 1) * self.items.len() + self.at
        }
    }

    /// The answer that `before` gives to the question that is asked.
    pub open spec fn asked(self, before: spec_fn(Vertex, Vertex) -> bool) -> bool {
        before(self.question()->Some_0.0, self.question()->Some_0.1)
    }

    /// Where the sorting ends up when every question is answered by
    /// `before`.
    pub open spec fn finished(self, before: spec_fn(Vertex, Vertex) -> bool) -> SorterView
        decreases self.settled().work_left(),
        when self.wf()
    {
        if self.settled().done() {
            self.settled()
        } else {
            proof {
                lemma_settled(self);
                lemma_answer_makes_progress(self.settled(), self.settled().asked(before));
            }
            self.settled().answered(self.settled().asked(before)).finished(before)
        }
    }

    /// The order that the corners are on their way to, if `before` says which
    /// corner comes before which.
    pub open spec fn heading_for(self, before: spec_fn(Vertex, Vertex) -> bool) -> Seq<Vertex> {
        if self.done() || !self.wf() {
            self.items
        } else {
            inserted_all(
                inserted(
                    self.items.subrange(0, self.at as int),
                    self.items[self.at as int],
                    before,
                ) + self.items.subrange(self.at as int + 1, self.sorted as int + 1),
                self.items,
                self.sorted + 1,
                before,
            )
        }
    }
}

impl Sorter {
    /// A sorter of `items`.
    pub fn new(items: Vec<Vertex>) -> (sorter: Sorter)
        ensures
            sorter@ == SorterView::start(items@),
            sorter@.wf(),
    {
        Sorter { items, sorted: 0, at: 0 }
    }

    /// Takes every step that needs no answer and then says which two corners
    /// it needs the order of: does the first come before the second? It asks
    /// nothing once the corners are sorted.
    pub fn ask(&mut self) -> (question: Option<(Vertex, Vertex)>)
        ensures
            final(self)@ == old(self)@.settled(),
            question == final(self)@.question(),
            old(self)@.wf() ==> (question is None <==> final(self)@.done()),
            old(self)@.wf() ==> final(self)@.wf(),
    {
        loop
            invariant
                old(self)@.wf() ==> self@.wf(),
                self@.settled() == old(self)@.settled(),
            ensures
                self@ == old(self)@.settled(),
                old(self)@.wf() ==> self@.wf(),
                self@.done() || self@.asks() || !self@.wf(),
            decreases self@.items.len() - self@.sorted,
        {
            if self.sorted >= self.items.len() {
                break;
            }
            if 0 < self.at && self.at <= self.sorted {
                break;
            }
            if self.at > self.sorted {
                break;
            }
            self.sorted = self.sorted + 1;
            self.at = self.sorted;
        }
        if self.sorted < self.items.len() && 0 < self.at && self.at <= self.sorted {
            Some((self.items[self.at], self.items[self.at - 1]))
        } else {
            None
        }
    }

    /// Takes the answer to what was asked and makes the step that follows
    /// from it: `before` says that the first of the two corners comes before
    /// the second.
    pub fn answer(&mut self, before: bool)
        ensures
            final(self)@ == old(self)@.answered(before),
            old(self)@.wf() ==> final(self)@.wf(),
    {
        if self.sorted < self.items.len() && 0 < self.at && self.at <= self.sorted {
            if before {
                let moving = self.items[self.at];
                let resting = self.items[self.at - 1];
                self.items.set(self.at, resting);
                self.items.set(self.at - 1, moving);
                self.at = self.at - 1;
            } else {
                self.sorted = self.sorted + 1;
                self.at = self.sorted;
            }
        }
    }

    /// The corners are sorted: nothing will be asked any more.
    pub fn is_done(&self) -> (done: bool)
        ensures
            done == self@.done(),
    {
        self.sorted >= self.items.len()
    }

    /// The corners as they stand, as a polygon.
    pub fn finish(self) -> (sorted: Vertices)
        ensures
            sorted@ == self@.items,
    {
        Vertices::from_value(self.items)
    }
}

/// Steps that need no answer keep the corners as they stand and never add to
/// the work that is left; after them the sorter is done or asks.
pub proof fn lemma_settled(sorter: SorterView)
    requires
        sorter.wf(),
    ensures
        sorter.settled().wf(),
        sorter.settled().items == sorter.items,
        sorter.settled().work_left() <= sorter.work_left(),
        sorter.settled().done() || sorter.settled().asks(),
    decreases sorter.items.len() - sorter.sorted,
{
    if !(sorter.done() || sorter.asks()) {
        let next = sorter.rested();
        lemma_settled(next);
        if !next.done() {
            let count = sorter.items.len() as int;
            let to_come = count - sorter.sorted - 1;
            assert(next.work_left() == to_come * count + next.at);
            assert(sorter.work_left() == (to_come + 1) * count + sorter.at);
            assert((to_come + 1) * count == to_come * count + count) by (nonlinear_arith);
        }
    }
}

/// Two neighbours that change places leave the same corners standing.
proof fn lemma_swap_keeps_corners(items: Seq<Vertex>, at: int)
    requires
        0 < at < items.len(),
    ensures
        items.update(at, items[at - 1]).update(at - 1, items[at]).to_multiset()
            == items.to_multiset(),
{
    broadcast use vstd::multiset::group_multiset_axioms;

    let half = items.update(at, items[at - 1]);
    vstd::seq_lib::to_multiset_update(items, at, items[at - 1]);
    vstd::seq_lib::to_multiset_update(half, at - 1, items[at]);
    items.to_multiset_ensures();
    assert(items.to_multiset().count(items[at]) > 0) by {
        assert(items.contains(items[at]));
    }
    assert(items.to_multiset().count(items[at - 1]) > 0) by {
        assert(items.contains(items[at - 1]));
    }
    assert(half.update(at - 1, items[at]).to_multiset() =~= items.to_multiset());
}

/// Every answer brings the sorting nearer its end: between one question and
/// the next, the work that is left shrinks. So asking and answering comes to
/// an end, whatever the answers are.
pub proof fn lemma_answer_makes_progress(sorter: SorterView, before: bool)
    requires
        sorter.wf(),
        sorter.asks(),
    ensures
        sorter.answered(before).wf(),
        sorter.answered(before).settled().work_left() < sorter.work_left(),
        sorter.answered(before).items.to_multiset() == sorter.items.to_multiset(),
{
    let after = sorter.answered(before);
    let count = sorter.items.len() as int;
    let to_come = count - sorter.sorted - 1;
    if before {
        lemma_settled(after);
        lemma_swap_keeps_corners(sorter.items, sorter.at as int);
    } else {
        lemma_settled(after);
        if !after.done() {
            assert(after.work_left() == to_come * count + after.at);
            assert((to_come + 1) * count == to_come * count + count) by (nonlinear_arith);
        }
    }
}

/// Steps that need no answer do not change where the corners are heading.
proof fn lemma_settled_heading(sorter: SorterView, before: spec_fn(Vertex, Vertex) -> bool)
    requires
        sorter.wf(),
    ensures
        sorter.settled().heading_for(before) == sorter.heading_for(before),
    decreases sorter.items.len() - sorter.sorted,
{
    if !(sorter.done() || sorter.asks()) {
        let next = sorter.rested();
        lemma_settled_heading(next, before);
        lemma_rested_heading(sorter, before);
    }
}

/// A corner that rests where it does not come before the corner in front of
/// it, or has none in front of it, leaves the heading as it is.
proof fn lemma_rested_heading(sorter: SorterView, before: spec_fn(Vertex, Vertex) -> bool)
    requires
        sorter.wf(),
        !sorter.done(),
        sorter.at == 0 || !before(sorter.items[sorter.at as int], sorter.items[sorter.at - 1]),
    ensures
        sorter.rested().heading_for(before) == sorter.heading_for(before),
{
    let items = sorter.items;
    let at = sorter.at as int;
    let sorted = sorter.sorted as int;
    let front = items.subrange(0, at);
    let back = items.subrange(at + 1, sorted + 1);
    let next = sorter.rested();
    assert(inserted(front, items[at], before) == front.push(items[at]));
    assert(front.push(items[at]) + back =~= items.subrange(0, sorted + 1));
    if !next.done() {
        assert(items.subrange(sorted + 2, sorted + 2) =~= Seq::<Vertex>::empty());
        assert(inserted(items.subrange(0, sorted + 1), items[sorted + 1], before)
            + items.subrange(sorted + 2, sorted + 2) =~= inserted(
            items.subrange(0, sorted + 1),
            items[sorted + 1],
            before,
        ));
    } else {
        assert(items.subrange(0, sorted + 1) =~= items);
    }
}

/// An answer that `before` gives does not change where the corners are
/// heading.
proof fn lemma_answered_heading(sorter: SorterView, before: spec_fn(Vertex, Vertex) -> bool)
    requires
        sorter.wf(),
        sorter.asks(),
    ensures
        sorter.answered(sorter.asked(before)).heading_for(before) == sorter.heading_for(before),
{
    let items = sorter.items;
    let at = sorter.at as int;
    let sorted = sorter.sorted as int;
    if sorter.asked(before) {
        let after = sorter.moved();
        let front = items.subrange(0, at);
        let back = items.subrange(at + 1, sorted + 1);
        assert(front.last() == items[at - 1]);
        assert(front.drop_last() =~= items.subrange(0, at - 1));
        assert(after.items.subrange(0, at - 1) =~= items.subrange(0, at - 1));
        assert(after.items[at - 1] == items[at]);
        assert(after.items.subrange(at, sorted + 1) =~= seq![items[at - 1]] + back);
        assert(inserted(front, items[at], before) == inserted(
            front.drop_last(),
            items[at],
            before,
        ).push(items[at - 1]));
        assert(inserted(front.drop_last(), items[at], before).push(items[at - 1]) + back
            =~= inserted(front.drop_last(), items[at], before) + (seq![items[at - 1]] + back));
        lemma_inserted_all_from(
            inserted(front, items[at], before) + back,
            items,
            after.items,
            (sorted + 1) as nat,
            before,
        );
    } else {
        lemma_rested_heading(sorter, before);
    }
}

/// What is put in place from some place on depends on the corners from that
/// place on only.
proof fn lemma_inserted_all_from(
    sorted: Seq<Vertex>,
    items: Seq<Vertex>,
    others: Seq<Vertex>,
    from: nat,
    before: spec_fn(Vertex, Vertex) -> bool,
)
    requires
        items.len() == others.len(),
        forall|i: int| from <= i < items.len() ==> items[i] == others[i],
    ensures
        inserted_all(sorted, items, from, before) == inserted_all(sorted, others, from, before),
    decreases items.len() - from,
{
    if from < items.len() {
        lemma_inserted_all_from(
            inserted(sorted, items[from as int], before),
            items,
            others,
            from + 1,
            before,
        );
    }
}

/// Answered by `before` throughout, the sorter ends with the order that it
/// was heading for.
proof fn lemma_finished_heading(sorter: SorterView, before: spec_fn(Vertex, Vertex) -> bool)
    requires
        sorter.wf(),
    ensures
        sorter.finished(before).done(),
        sorter.finished(before).items == sorter.heading_for(before),
    decreases sorter.settled().work_left(),
{
    lemma_settled(sorter);
    lemma_settled_heading(sorter, before);
    let settled = sorter.settled();
    if !settled.done() {
        let answer = settled.asked(before);
        lemma_answer_makes_progress(settled, answer);
        lemma_answered_heading(settled, before);
        lemma_finished_heading(settled.answered(answer), before);
    }
}

/// The machine sorts by insertion: whatever function says which corner comes
/// before which, if every question is answered by it, asking and answering
/// ends, and it ends with the corners in the order that insertion gives for
/// that function.
pub proof fn lemma_machine_sorts(items: Seq<Vertex>, before: spec_fn(Vertex, Vertex) -> bool)
    ensures
        SorterView::start(items).finished(before).done(),
        SorterView::start(items).finished(before).items == insertion_sorted(items, before),
{
    let start = SorterView::start(items);
    lemma_finished_heading(start, before);
    if items.len() > 0 {
        assert(items.subrange(0, 0) =~= Seq::<Vertex>::empty());
        assert(items.subrange(1, 1) =~= Seq::<Vertex>::empty());
        assert(inserted(Seq::empty(), items[0], before) + items.subrange(1, 1) =~= inserted(
            Seq::empty(),
            items[0],
            before,
        ));
    }
}

/// Putting a corner in its place adds that corner and no other.
pub proof fn lemma_inserted_keeps_corners(
    sorted: Seq<Vertex>,
    item: Vertex,
    before: spec_fn(Vertex, Vertex) -> bool,
)
    ensures
        inserted(sorted, item, before).to_multiset() == sorted.to_multiset().insert(item),
        inserted(sorted, item, before).len() == sorted.len() + 1,
    decreases sorted.len(),
{
    broadcast use vstd::multiset::group_multiset_axioms;

    if sorted.len() > 0 && before(item, sorted.last()) {
        let front = sorted.drop_last();
        lemma_inserted_keeps_corners(front, item, before);
        vstd::seq_lib::to_multiset_build(inserted(front, item, before), sorted.last());
        vstd::seq_lib::to_multiset_build(front, sorted.last());
        assert(front.push(sorted.last()) =~= sorted);
        assert(inserted(sorted, item, before).to_multiset() =~= sorted.to_multiset().insert(item));
    } else {
        vstd::seq_lib::to_multiset_build(sorted, item);
    }
}

/// Sorted by insertion, the corners are the same corners, each as often as
/// before.
pub proof fn lemma_sorted_keeps_corners(items: Seq<Vertex>, before: spec_fn(Vertex, Vertex) -> bool)
    ensures
        insertion_sorted(items, before).to_multiset() == items.to_multiset(),
        insertion_sorted(items, before).len() == items.len(),
{
    assert(items.subrange(0, 0) =~= Seq::<Vertex>::empty());
    lemma_inserted_all_keeps_corners(Seq::empty(), items, 0, before);
}

/// Putting corners in their places adds those corners and no others.
proof fn lemma_inserted_all_keeps_corners(
    sorted: Seq<Vertex>,
    items: Seq<Vertex>,
    from: nat,
    before: spec_fn(Vertex, Vertex) -> bool,
)
    requires
        from <= items.len(),
        sorted.to_multiset() == items.subrange(0, from as int).to_multiset(),
        sorted.len() == from,
    ensures
        inserted_all(sorted, items, from, before).to_multiset() == items.to_multiset(),
        inserted_all(sorted, items, from, before).len() == items.len(),
    decreases items.len() - from,
{
    if from < items.len() {
        lemma_inserted_keeps_corners(sorted, items[from as int], before);
        vstd::seq_lib::to_multiset_build(items.subrange(0, from as int), items[from as int]);
        assert(items.subrange(0, from as int).push(items[from as int]) =~= items.subrange(
            0,
            from as int + 1,
        ));
        lemma_inserted_all_keeps_corners(
            inserted(sorted, items[from as int], before),
            items,
            from + 1,
            before,
        );
    } else {
        assert(items.subrange(0, from as int) =~= items);
    }
}

/// A corner put in its place among corners in order leaves them in order,
/// provided that of two corners not each comes before the other.
pub proof fn lemma_inserted_in_order(
    sorted: Seq<Vertex>,
    item: Vertex,
    before: spec_fn(Vertex, Vertex) -> bool,
)
    requires
        in_order(sorted, before),
        forall|a: Vertex, b: Vertex| #[trigger] before(a, b) ==> !before(b, a),
    ensures
        in_order(inserted(sorted, item, before), before),
        inserted(sorted, item, before).len() == sorted.len() + 1,
        inserted(sorted, item, before).last() == item || (sorted.len() > 0 && inserted(
            sorted,
            item,
            before,
        ).last() == sorted.last()),
    decreases sorted.len(),
{
    if sorted.len() > 0 && before(item, sorted.last()) {
        let front = sorted.drop_last();
        assert forall|i: int| 0 <= i && i + 1 < front.len() implies !#[trigger] before(
            front[i + 1],
            front[i],
        ) by {
            assert(front[i + 1] == sorted[i + 1]);
            assert(front[i] == sorted[i]);
        }
        lemma_inserted_in_order(front, item, before);
        let placed = inserted(front, item, before);
        let result = placed.push(sorted.last());
        assert forall|i: int| 0 <= i && i + 1 < result.len() implies !#[trigger] before(
            result[i + 1],
            result[i],
        ) by {
            if i + 1 < placed.len() {
                assert(result[i + 1] == placed[i + 1]);
                assert(result[i] == placed[i]);
            } else {
                assert(result[i + 1] == sorted.last());
                assert(result[i] == placed.last());
                if placed.last() == item {
                } else {
                    assert(front.last() == sorted[sorted.len() - 2]);
                    assert(sorted.last() == sorted[sorted.len() - 2 + 1]);
                }
            }
        }
    } else {
        let result = sorted.push(item);
        assert forall|i: int| 0 <= i && i + 1 < result.len() implies !#[trigger] before(
            result[i + 1],
            result[i],
        ) by {
            if i + 1 < sorted.len() {
                assert(result[i + 1] == sorted[i + 1]);
                assert(result[i] == sorted[i]);
            } else {
                assert(result[i + 1] == item);
                assert(result[i] == sorted.last());
            }
        }
    }
}

/// Sorted by insertion, no corner comes before the corner in front of it,
/// provided that of two corners not each comes before the other.
pub proof fn lemma_sorted_in_order(items: Seq<Vertex>, before: spec_fn(Vertex, Vertex) -> bool)
    requires
        forall|a: Vertex, b: Vertex| #[trigger] before(a, b) ==> !before(b, a),
    ensures
        in_order(insertion_sorted(items, before), before),
{
    lemma_inserted_all_in_order(Seq::empty(), items, 0, before);
}

proof fn lemma_inserted_all_in_order(
    sorted: Seq<Vertex>,
    items: Seq<Vertex>,
    from: nat,
    before: spec_fn(Vertex, Vertex) -> bool,
)
    requires
        in_order(sorted, before),
        forall|a: Vertex, b: Vertex| #[trigger] before(a, b) ==> !before(b, a),
    ensures
        in_order(inserted_all(sorted, items, from, before), before),
    decreases items.len() - from,
{
    if from < items.len() {
        lemma_inserted_in_order(sorted, items[from as int], before);
        lemma_inserted_all_in_order(
            inserted(sorted, items[from as int], before),
            items,
            from + 1,
            before,
        );
    }
}

} // verus!
