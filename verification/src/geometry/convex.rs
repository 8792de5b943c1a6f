//! What a hull keeps of a polygon that is convex.
//!
//! Walked from left to right, the corners of a convex polygon are of two
//! kinds: those of the lower side lie below every chord that spans them, and
//! those of the upper side lie above every such chord. Where the turns say
//! so, the chain out keeps exactly the lower corners and the chain back
//! exactly the upper ones, and the hull is made of every corner, once.

use crate::geometry::hull::{
    chain_over, chain_with, hull_of, lemma_machine_finds_hull, without_last, HullChainView,
};
use crate::geometry::sort::{
    insertion_sorted, lemma_machine_sorts, lemma_sorted_keeps_corners, SorterView,
};
use crate::geometry::vertex::Vertex;
use crate::geometry::vertices::turns_convexity;
use crate::scalar::Scalar;
use vstd::prelude::*;

verus! {

/// The corners among the first `count` of `walk` that are marked, in the
/// order of the walk.
pub open spec fn picked(walk: Seq<Vertex>, marks: Seq<bool>, count: nat) -> Seq<Vertex>
    decreases count,
{
    if count == 0 {
        Seq::empty()
    } else if marks[count - 1] {
        picked(walk, marks, (count - 1) as nat).push(walk[count - 1])
    } else {
        picked(walk, marks, (count - 1) as nat)
    }
}

/// The places of the corners that `picked` picks.
pub open spec fn picked_places(marks: Seq<bool>, count: nat) -> Seq<int>
    decreases count,
{
    if count == 0 {
        Seq::empty()
    } else if marks[count - 1] {
        picked_places(marks, (count - 1) as nat).push(count - 1)
    } else {
        picked_places(marks, (count - 1) as nat)
    }
}

/// The marks of a walk for the way back: the walk turned around, and every
/// mark turned into its opposite.
pub open spec fn flipped(marks: Seq<bool>) -> Seq<bool> {
    Seq::new(marks.len(), |t: int| !marks[marks.len() - 1 - t])
}

/// The turns see the marked corners of the walk, and no others, as corners
/// of a chain: a marked corner turns left between any corner before it and
/// any corner after it, and an unmarked corner does not. The first corner is
/// marked.
pub open spec fn sees_chain(
    walk: Seq<Vertex>,
    marks: Seq<bool>,
    turn: spec_fn(Vertex, Vertex, Vertex) -> Scalar,
) -> bool {
    &&& walk.len() >= 1
    &&& marks.len() == walk.len()
    &&& marks[0]
    &&& forall|i: int, j: int, k: int|
        #![trigger turn(walk[i], walk[j], walk[k])]
        0 <= i < j < k < walk.len() ==> (marks[j] <==> !turn(walk[i], walk[j], walk[k]).le(
            Scalar::zero(),
        ))
}

/// The turns see the walk as a convex polygon walked from left to right,
/// with `lower` marking the corners of its lower side: a lower corner lies
/// below every chord that spans it, so that the way out turns left at it and
/// the way back does not, and every other corner lies above every such
/// chord. The walk begins on the lower side and ends on the upper.
pub open spec fn sees_convex(
    walk: Seq<Vertex>,
    lower: Seq<bool>,
    turn: spec_fn(Vertex, Vertex, Vertex) -> Scalar,
) -> bool {
    &&& walk.len() >= 2
    &&& lower.len() == walk.len()
    &&& lower[0]
    &&& !lower[walk.len() - 1]
    &&& forall|i: int, j: int, k: int|
        #![trigger turn(walk[i], walk[j], walk[k])]
        0 <= i < j < k < walk.len() ==> (lower[j] <==> !turn(walk[i], walk[j], walk[k]).le(
            Scalar::zero(),
        ))
    &&& forall|i: int, j: int, k: int|
        #![trigger turn(walk[k], walk[j], walk[i])]
        0 <= i < j < k < walk.len() ==> (lower[j] <==> turn(walk[k], walk[j], walk[i]).le(
            Scalar::zero(),
        ))
}

/// What is picked stands in the walk at the places picked, which rise, lie
/// below `count` and are marked.
proof fn lemma_picked(walk: Seq<Vertex>, marks: Seq<bool>, count: nat)
    requires
        count <= walk.len(),
        marks.len() == walk.len(),
    ensures
        picked(walk, marks, count).len() == picked_places(marks, count).len(),
        picked(walk, marks, count).len() <= count,
        forall|t: int|
            0 <= t < picked_places(marks, count).len() ==> {
                &&& 0 <= #[trigger] picked_places(marks, count)[t] < count
                &&& marks[picked_places(marks, count)[t]]
                &&& picked(walk, marks, count)[t] == walk[picked_places(marks, count)[t]]
            },
        forall|t: int, u: int|
            0 <= t < u < picked_places(marks, count).len() ==> picked_places(marks, count)[t]
                < picked_places(marks, count)[u],
        count >= 1 && marks[0] ==> picked(walk, marks, count).len() >= 1,
    decreases count,
{
    if count > 0 {
        lemma_picked(walk, marks, (count - 1) as nat);
        let before = picked_places(marks, (count - 1) as nat);
        if marks[count - 1] {
            let places = before.push(count - 1);
            assert(picked_places(marks, count) == places);
            assert forall|t: int, u: int| 0 <= t < u < places.len() implies places[t]
                < places[u] by {
                if u < before.len() {
                    assert(places[t] == before[t]);
                    assert(places[u] == before[u]);
                } else {
                    assert(places[t] == before[t]);
                }
            }
        }
    }
}

/// One step of the chain over a walk whose marked corners the turns see as a
/// chain: with the corners picked so far and the corner last come upon, the
/// next corner leaves the corners picked by then, and itself.
proof fn lemma_chain_step(
    walk: Seq<Vertex>,
    marks: Seq<bool>,
    turn: spec_fn(Vertex, Vertex, Vertex) -> Scalar,
    count: nat,
)
    requires
        sees_chain(walk, marks, turn),
        1 <= count < walk.len(),
    ensures
        chain_with(
            picked(walk, marks, (count - 1) as nat).push(walk[count - 1]),
            walk[count as int],
            turn,
        ) == picked(walk, marks, count).push(walk[count as int]),
{
    let before = picked(walk, marks, (count - 1) as nat);
    let places = picked_places(marks, (count - 1) as nat);
    lemma_picked(walk, marks, (count - 1) as nat);
    let chain = before.push(walk[count - 1]);
    let coming = walk[count as int];
    if marks[count - 1] {
        if chain.len() >= 2 {
            let a = places[places.len() - 1];
            assert(chain[chain.len() - 2] == walk[a]);
            assert(chain[chain.len() - 1] == walk[count - 1]);
            assert(!turn(walk[a], walk[count - 1], walk[count as int]).le(Scalar::zero()));
        }
        assert(chain_with(chain, coming, turn) == chain.push(coming));
    } else {
        assert(count - 1 >= 1);
        assert(before.len() >= 1);
        let a = places[places.len() - 1];
        assert(chain[chain.len() - 2] == walk[a]);
        assert(chain[chain.len() - 1] == walk[count - 1]);
        assert(turn(walk[a], walk[count - 1], walk[count as int]).le(Scalar::zero()));
        assert(chain.drop_last() =~= before);
        assert(chain_with(chain, coming, turn) == chain_with(before, coming, turn));
        if before.len() >= 2 {
            let b = places[places.len() - 2];
            assert(before[before.len() - 2] == walk[b]);
            assert(before[before.len() - 1] == walk[a]);
            assert(b < a);
            assert(!turn(walk[b], walk[a], walk[count as int]).le(Scalar::zero()));
        }
        assert(chain_with(before, coming, turn) == before.push(coming));
    }
}

/// From any corner on, the chain over such a walk ends with the corners
/// picked before the last corner, and the last corner.
proof fn lemma_chain_from(
    walk: Seq<Vertex>,
    marks: Seq<bool>,
    turn: spec_fn(Vertex, Vertex, Vertex) -> Scalar,
    count: nat,
)
    requires
        sees_chain(walk, marks, turn),
        1 <= count <= walk.len(),
    ensures
        chain_over(
            picked(walk, marks, (count - 1) as nat).push(walk[count - 1]),
            walk,
            count,
            turn,
        ) == picked(walk, marks, (walk.len() - 1) as nat).push(walk[walk.len() - 1]),
    decreases walk.len() - count,
{
    if count < walk.len() {
        lemma_chain_step(walk, marks, turn, count);
        lemma_chain_from(walk, marks, turn, count + 1);
    }
}

/// The chain over a walk whose marked corners the turns see as a chain keeps
/// the marked corners and the last corner, and drops every other.
pub proof fn lemma_chain_keeps_the_marked(
    walk: Seq<Vertex>,
    marks: Seq<bool>,
    turn: spec_fn(Vertex, Vertex, Vertex) -> Scalar,
)
    requires
        sees_chain(walk, marks, turn),
    ensures
        chain_over(Seq::empty(), walk, 0, turn) == picked(
            walk,
            marks,
            (walk.len() - 1) as nat,
        ).push(walk[walk.len() - 1]),
{
    let first = Seq::<Vertex>::empty().push(walk[0]);
    assert(chain_with(Seq::empty(), walk[0], turn) == first);
    assert(picked(walk, marks, 0).push(walk[0]) == first);
    lemma_chain_from(walk, marks, turn, 1);
}

/// What is picked among the first corners depends on those corners and
/// their marks alone.
proof fn lemma_picked_of_front(
    walk: Seq<Vertex>,
    marks: Seq<bool>,
    other_walk: Seq<Vertex>,
    other_marks: Seq<bool>,
    count: nat,
)
    requires
        count <= walk.len(),
        count <= other_walk.len(),
        count <= marks.len(),
        count <= other_marks.len(),
        forall|i: int| 0 <= i < count ==> walk[i] == other_walk[i],
        forall|i: int| 0 <= i < count ==> marks[i] == other_marks[i],
    ensures
        picked(walk, marks, count) == picked(other_walk, other_marks, count),
    decreases count,
{
    if count > 0 {
        lemma_picked_of_front(walk, marks, other_walk, other_marks, (count - 1) as nat);
    }
}

/// What is picked of a walk with one more corner in front: that corner, if
/// it is marked, and then what is picked of the walk.
proof fn lemma_picked_behind(
    corner: Vertex,
    mark: bool,
    walk: Seq<Vertex>,
    marks: Seq<bool>,
    count: nat,
)
    requires
        count <= walk.len(),
        marks.len() == walk.len(),
    ensures
        picked(seq![corner] + walk, seq![mark] + marks, count + 1) == (if mark {
            seq![corner]
        } else {
            Seq::empty()
        }) + picked(walk, marks, count),
    decreases count,
{
    let longer = seq![corner] + walk;
    let longer_marks = seq![mark] + marks;
    let front = if mark {
        seq![corner]
    } else {
        Seq::<Vertex>::empty()
    };
    if count == 0 {
        assert(picked(longer, longer_marks, 0) =~= Seq::<Vertex>::empty());
        assert(longer[0] == corner);
        assert(longer_marks[0] == mark);
        assert(picked(longer, longer_marks, 1) =~= front + picked(walk, marks, 0));
    } else {
        lemma_picked_behind(corner, mark, walk, marks, (count - 1) as nat);
        assert(longer[count as int] == walk[count - 1]);
        assert(longer_marks[count as int] == marks[count - 1]);
        let before = picked(walk, marks, (count - 1) as nat);
        if marks[count - 1] {
            assert((front + before).push(walk[count - 1]) =~= front + before.push(
                walk[count - 1],
            ));
        }
    }
}

/// The corners picked on the way out and the corners picked on the way back
/// are, between them, every corner of the walk, once.
proof fn lemma_picked_both_ways(walk: Seq<Vertex>, marks: Seq<bool>)
    requires
        marks.len() == walk.len(),
    ensures
        (picked(walk.reverse(), flipped(marks), walk.len()) + picked(
            walk,
            marks,
            walk.len(),
        )).to_multiset() == walk.to_multiset(),
    decreases walk.len(),
{
    broadcast use vstd::multiset::group_multiset_axioms;

    let count = walk.len();
    if count == 0 {
        assert(picked(walk.reverse(), flipped(marks), 0) + picked(walk, marks, 0) =~= walk);
    } else {
        let shorter = walk.drop_last();
        let shorter_marks = marks.drop_last();
        let last = walk.last();
        let mark = marks.last();
        lemma_picked_both_ways(shorter, shorter_marks);
        let back = picked(shorter.reverse(), flipped(shorter_marks), (count - 1) as nat);
        let out = picked(shorter, shorter_marks, (count - 1) as nat);
        assert(walk.reverse() =~= seq![last] + shorter.reverse());
        assert(flipped(marks) =~= seq![!mark] + flipped(shorter_marks));
        lemma_picked_behind(
            last,
            !mark,
            shorter.reverse(),
            flipped(shorter_marks),
            (count - 1) as nat,
        );
        lemma_picked_of_front(walk, marks, shorter, shorter_marks, (count - 1) as nat);
        let whole_back = picked(walk.reverse(), flipped(marks), count);
        let whole_out = picked(walk, marks, count);
        vstd::seq_lib::lemma_multiset_commutative(back, out);
        vstd::seq_lib::lemma_multiset_commutative(whole_back, whole_out);
        vstd::seq_lib::to_multiset_build(shorter, last);
        assert(shorter.push(last) =~= walk);
        if mark {
            assert(whole_back == back);
            assert(whole_out == out.push(last));
            vstd::seq_lib::to_multiset_build(out, last);
        } else {
            assert(whole_back == seq![last] + back);
            assert(whole_out == out);
            vstd::seq_lib::to_multiset_insert(back, 0, last);
            assert(back.insert(0, last) =~= seq![last] + back);
        }
        assert((whole_back + whole_out).to_multiset() =~= walk.to_multiset());
    }
}

/// The hull of a convex polygon is made of the corners of the polygon, every
/// one of them and each as often as it stands in the polygon: where the
/// turns see the walk as a convex polygon, the chain back keeps the corners
/// of the upper side, the chain out keeps the corners of the lower side, and
/// nothing is dropped and nothing added.
pub proof fn lemma_hull_of_convex_keeps_every_corner(
    walk: Seq<Vertex>,
    lower: Seq<bool>,
    turn: spec_fn(Vertex, Vertex, Vertex) -> Scalar,
)
    requires
        sees_convex(walk, lower, turn),
    ensures
        hull_of(walk, turn) == picked(walk.reverse(), flipped(lower), walk.len()) + picked(
            walk,
            lower,
            walk.len(),
        ),
        hull_of(walk, turn).to_multiset() == walk.to_multiset(),
        hull_of(walk, turn).len() == walk.len(),
{
    let count = walk.len();
    let back = walk.reverse();
    let upper = flipped(lower);
    assert(sees_chain(walk, lower, turn));
    assert(sees_chain(back, upper, turn)) by {
        assert forall|i: int, j: int, k: int| 0 <= i < j < k < back.len() implies (upper[j]
            <==> !#[trigger] turn(back[i], back[j], back[k]).le(Scalar::zero())) by {
            let a = count - 1 - k;
            let b = count - 1 - j;
            let c = count - 1 - i;
            assert(back[i] == walk[c]);
            assert(back[j] == walk[b]);
            assert(back[k] == walk[a]);
            assert(0 <= a < b < c < count);
            assert(lower[b] <==> turn(walk[c], walk[b], walk[a]).le(Scalar::zero()));
        }
    }
    lemma_chain_keeps_the_marked(walk, lower, turn);
    lemma_chain_keeps_the_marked(back, upper, turn);
    assert(picked(walk, lower, count) == picked(walk, lower, (count - 1) as nat));
    assert(picked(back, upper, count) == picked(back, upper, (count - 1) as nat));
    let out_chain = picked(walk, lower, (count - 1) as nat).push(walk[count - 1]);
    let back_chain = picked(back, upper, (count - 1) as nat).push(back[count - 1]);
    assert(without_last(out_chain) =~= picked(walk, lower, count));
    assert(without_last(back_chain) =~= picked(back, upper, count));
    lemma_picked_both_ways(walk, lower);
    walk.to_multiset_ensures();
    hull_of(walk, turn).to_multiset_ensures();
}

/// The place after `place` in a polygon of `count` corners: the first place
/// comes after the last.
pub open spec fn place_after(place: int, count: int) -> int {
    if place + 1 < count {
        place + 1
    } else {
        0
    }
}

/// The turn at every corner of a polygon: at each corner, the turn of that
/// corner with the two corners that follow it.
pub open spec fn corner_turns(
    corners: Seq<Vertex>,
    turn: spec_fn(Vertex, Vertex, Vertex) -> Scalar,
) -> Seq<Scalar> {
    Seq::new(
        corners.len(),
        |i: int|
            turn(
                corners[i],
                corners[place_after(i, corners.len() as int)],
                corners[place_after(place_after(i, corners.len() as int), corners.len() as int)],
            ),
    )
}

/// The turns are what cross products are: the turn of three corners is a
/// number, and it is zero or below whichever of the three is named first, as
/// long as they are named in the same order round.
pub open spec fn turns_go_round(turn: spec_fn(Vertex, Vertex, Vertex) -> Scalar) -> bool {
    &&& forall|a: Vertex, b: Vertex, c: Vertex| !(#[trigger] turn(a, b, c)).nan()
    &&& forall|a: Vertex, b: Vertex, c: Vertex|
        (#[trigger] turn(a, b, c)).le(Scalar::zero()) == turn(b, c, a).le(Scalar::zero())
}

/// Where a corner stands on the way round a convex polygon that begins at
/// its first corner, goes along the lower side and comes back along the
/// upper side.
pub open spec fn round_place(lower: Seq<bool>, place: int) -> int {
    if lower[place] {
        place
    } else {
        2 * lower.len() - place
    }
}

/// Three corners of a convex polygon that follow each other on the way
/// round turn left.
proof fn lemma_three_corners_turn_left(
    walk: Seq<Vertex>,
    lower: Seq<bool>,
    turn: spec_fn(Vertex, Vertex, Vertex) -> Scalar,
    x: int,
    y: int,
    z: int,
)
    requires
        sees_convex(walk, lower, turn),
        turns_go_round(turn),
        0 <= x < walk.len(),
        0 <= y < walk.len(),
        0 <= z < walk.len(),
        ({
            let kx = round_place(lower, x);
            let ky = round_place(lower, y);
            let kz = round_place(lower, z);
            (kx < ky < kz) || (ky < kz < kx) || (kz < kx < ky)
        }),
    ensures
        turn(walk[x], walk[y], walk[z]).gt(Scalar::zero()),
{
    let zero = Scalar::zero();
    let here = turn(walk[x], walk[y], walk[z]);
    let once = turn(walk[y], walk[z], walk[x]);
    let twice = turn(walk[z], walk[x], walk[y]);
    assert(here.le(zero) == once.le(zero));
    assert(once.le(zero) == twice.le(zero));
    assert(!here.nan());
    if x < y && y < z {
        assert(lower[y] <==> !turn(walk[x], walk[y], walk[z]).le(zero));
    } else if y < z && z < x {
        assert(lower[z] <==> !turn(walk[y], walk[z], walk[x]).le(zero));
    } else if z < x && x < y {
        assert(lower[x] <==> !turn(walk[z], walk[x], walk[y]).le(zero));
    } else if z < y && y < x {
        assert(lower[y] <==> turn(walk[x], walk[y], walk[z]).le(zero));
    } else if x < z && z < y {
        assert(lower[z] <==> turn(walk[y], walk[z], walk[x]).le(zero));
    } else if y < x && x < z {
        assert(lower[x] <==> turn(walk[z], walk[x], walk[y]).le(zero));
    }
    assert(!here.le(zero));
}

/// Where in the walk the corner stands that stands at `place` in the hull
/// of a convex polygon.
pub open spec fn hull_place(lower: Seq<bool>, place: int) -> int {
    let back = picked_places(flipped(lower), lower.len());
    let out = picked_places(lower, lower.len());
    if place < back.len() {
        lower.len() - 1 - back[place]
    } else {
        out[place - back.len()]
    }
}

/// The hull of a convex polygon goes round the polygon: its corners stand in
/// the walk at places that rise on the way round, but for one step back to
/// the beginning.
proof fn lemma_hull_goes_round(
    walk: Seq<Vertex>,
    lower: Seq<bool>,
    turn: spec_fn(Vertex, Vertex, Vertex) -> Scalar,
)
    requires
        sees_convex(walk, lower, turn),
    ensures
        hull_of(walk, turn).len() == walk.len(),
        picked_places(flipped(lower), lower.len()).len() + picked_places(
            lower,
            lower.len(),
        ).len() == walk.len(),
        picked_places(flipped(lower), lower.len()).len() >= 1,
        picked_places(lower, lower.len()).len() >= 1,
        forall|p: int|
            0 <= p < walk.len() ==> {
                &&& 0 <= #[trigger] hull_place(lower, p) < walk.len()
                &&& hull_of(walk, turn)[p] == walk[hull_place(lower, p)]
                &&& (p < picked_places(flipped(lower), lower.len()).len() ==> round_place(
                    lower,
                    hull_place(lower, p),
                ) > walk.len())
                &&& (p >= picked_places(flipped(lower), lower.len()).len() ==> round_place(
                    lower,
                    hull_place(lower, p),
                ) < walk.len())
            },
        forall|p: int, q: int|
            0 <= p < q < walk.len() && (q < picked_places(flipped(lower), lower.len()).len() || p
                >= picked_places(flipped(lower), lower.len()).len()) ==> round_place(
                lower,
                #[trigger] hull_place(lower, p),
            ) < round_place(lower, #[trigger] hull_place(lower, q)),
{
    let count = walk.len();
    let upper = flipped(lower);
    let back_walk = walk.reverse();
    let back = picked_places(upper, count);
    let out = picked_places(lower, count);
    lemma_hull_of_convex_keeps_every_corner(walk, lower, turn);
    lemma_picked(back_walk, upper, count);
    lemma_picked(walk, lower, count);
    let hull = hull_of(walk, turn);
    let back_corners = picked(back_walk, upper, count);
    let out_corners = picked(walk, lower, count);
    assert(hull == back_corners + out_corners);
    assert(upper[0]);
    assert forall|p: int| 0 <= p < count implies {
        &&& 0 <= #[trigger] hull_place(lower, p) < count
        &&& hull[p] == walk[hull_place(lower, p)]
        &&& (p < back.len() ==> round_place(lower, hull_place(lower, p)) > count)
        &&& (p >= back.len() ==> round_place(lower, hull_place(lower, p)) < count)
    } by {
        if p < back.len() {
            let t = back[p];
            assert(0 <= t < count);
            assert(upper[t]);
            assert(hull[p] == back_corners[p]);
            assert(back_corners[p] == back_walk[t]);
            assert(back_walk[t] == walk[count - 1 - t]);
            assert(!lower[count - 1 - t]);
        } else {
            let t = out[p - back.len()];
            assert(0 <= t < count);
            assert(lower[t]);
            assert(hull[p] == out_corners[p - back.len()]);
        }
    }
    assert forall|p: int, q: int|
        0 <= p < q < count && (q < back.len() || p >= back.len()) implies round_place(
        lower,
        #[trigger] hull_place(lower, p),
    ) < round_place(lower, #[trigger] hull_place(lower, q)) by {
        if q < back.len() {
            assert(back[p] < back[q]);
            assert(upper[back[p]]);
            assert(upper[back[q]]);
        } else {
            assert(out[p - back.len()] < out[q - back.len()]);
            assert(lower[out[p - back.len()]]);
            assert(lower[out[q - back.len()]]);
        }
    }
}

/// The hull of a convex polygon is found convex: where the turns see the
/// walk as a convex polygon of three corners or more and are what cross
/// products are, the hull turns left at every corner, so that its turns say
/// that it is convex.
pub proof fn lemma_hull_of_convex_is_convex(
    walk: Seq<Vertex>,
    lower: Seq<bool>,
    turn: spec_fn(Vertex, Vertex, Vertex) -> Scalar,
)
    requires
        sees_convex(walk, lower, turn),
        turns_go_round(turn),
        walk.len() >= 3,
    ensures
        forall|i: int|
            0 <= i < walk.len() ==> (#[trigger] corner_turns(hull_of(walk, turn), turn)[i]).gt(
                Scalar::zero(),
            ),
        turns_convexity(corner_turns(hull_of(walk, turn), turn)) == Some(true),
{
    let count = walk.len() as int;
    let hull = hull_of(walk, turn);
    let turns = corner_turns(hull, turn);
    let split = picked_places(flipped(lower), lower.len()).len() as int;
    lemma_hull_goes_round(walk, lower, turn);
    assert forall|i: int| 0 <= i < count implies (#[trigger] turns[i]).gt(Scalar::zero()) by {
        let j = place_after(i, count);
        let k = place_after(j, count);
        let x = hull_place(lower, i);
        let y = hull_place(lower, j);
        let z = hull_place(lower, k);
        let kx = round_place(lower, x);
        let ky = round_place(lower, y);
        let kz = round_place(lower, z);
        assert(turns[i] == turn(hull[i], hull[j], hull[k]));
        assert(hull[i] == walk[x]);
        assert(hull[j] == walk[y]);
        assert(hull[k] == walk[z]);
        // each pair of the three, by where the two stand in the hull
        if i < j {
            if j < split || i >= split {
                assert(kx < ky);
            } else {
                assert(ky < count < kx);
            }
        } else {
            if i < split || j >= split {
                assert(ky < kx);
            } else {
                assert(kx < count < ky);
            }
        }
        if j < k {
            if k < split || j >= split {
                assert(ky < kz);
            } else {
                assert(kz < count < ky);
            }
        } else {
            if j < split || k >= split {
                assert(kz < ky);
            } else {
                assert(ky < count < kz);
            }
        }
        if i < k {
            if k < split || i >= split {
                assert(kx < kz);
            } else {
                assert(kz < count < kx);
            }
        } else {
            if i < split || k >= split {
                assert(kz < kx);
            } else {
                assert(kx < count < kz);
            }
        }
        lemma_three_corners_turn_left(walk, lower, turn, x, y, z);
    }
    assert(turns[0].gt(Scalar::zero()));
    assert(turns.len() >= 3);
    assert(crate::geometry::vertices::some_above_zero(turns));
    assert(!crate::geometry::vertices::some_below_zero(turns)) by {
        if crate::geometry::vertices::some_below_zero(turns) {
            let i = choose|i: int|
                0 <= i < turns.len() && (#[trigger] turns[i]).lt(Scalar::zero());
            assert(turns[i].gt(Scalar::zero()));
        }
    }
}

/// The hull of a convex polygon is the polygon itself, its corners in a new
/// order, and is found convex. The corners are sorted for the walk by the
/// sorter, answered by `before`, and the hull is found by the chain,
/// answered by `turn`. Where the turns see the sorted corners as a convex
/// polygon, the hull that the chain ends with holds every corner of the
/// polygon, each as often as the polygon does; and where the polygon has
/// three corners or more and the turns are what cross products are, the
/// turns at the corners of the hull say that it is convex.
pub proof fn lemma_hull_of_convex_polygon(
    points: Seq<Vertex>,
    before: spec_fn(Vertex, Vertex) -> bool,
    lower: Seq<bool>,
    turn: spec_fn(Vertex, Vertex, Vertex) -> Scalar,
)
    requires
        sees_convex(insertion_sorted(points, before), lower, turn),
    ensures
        SorterView::start(points).finished(before).done(),
        HullChainView::start(SorterView::start(points).finished(before).items).finished(
            turn,
        ).phase is Done,
        HullChainView::start(SorterView::start(points).finished(before).items).finished(
            turn,
        ).result().to_multiset() == points.to_multiset(),
        HullChainView::start(SorterView::start(points).finished(before).items).finished(
            turn,
        ).result().len() == points.len(),
        points.len() >= 3 && turns_go_round(turn) ==> turns_convexity(
            corner_turns(
                HullChainView::start(SorterView::start(points).finished(before).items).finished(
                    turn,
                ).result(),
                turn,
            ),
        ) == Some(true),
{
    let walk = insertion_sorted(points, before);
    lemma_machine_sorts(points, before);
    lemma_sorted_keeps_corners(points, before);
    lemma_machine_finds_hull(walk, turn);
    lemma_hull_of_convex_keeps_every_corner(walk, lower, turn);
    if points.len() >= 3 && turns_go_round(turn) {
        lemma_hull_of_convex_is_convex(walk, lower, turn);
    }
}

} // verus!
