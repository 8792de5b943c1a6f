use crate::base::common::OrderedHashMap;
use crate::geometry::vector::Vector;
use crate::geometry::vertex::Vertex;
use crate::geometry::vertices::Vertices;
use crate::scalar::Scalar;
use vstd::prelude::*;

verus! {

/// The directions along which a polygon is tested for overlap: one normal for
/// every slope that an edge of the polygon has.
#[derive(Debug)]
pub struct Axes {
    value: Vec<Vertex>,
}

impl View for Axes {
    type V = Seq<Vertex>;

    closed spec fn view(&self) -> Seq<Vertex> {
        self.value@
    }
}

/// The keys of `keyed` without repeats, each where it first came.
pub open spec fn first_keys(keyed: Seq<(Seq<char>, Vertex)>) -> Seq<Seq<char>>
    decreases keyed.len(),
{
    if keyed.len() == 0 {
        Seq::empty()
    } else {
        let before = first_keys(keyed.drop_last());
        if before.contains(keyed.last().0) {
            before
        } else {
            before.push(keyed.last().0)
        }
    }
}

/// For every key of `first_keys`, in that order, the normal that came last
/// under it.
pub open spec fn last_normals(keyed: Seq<(Seq<char>, Vertex)>) -> Seq<Vertex>
    decreases keyed.len(),
{
    if keyed.len() == 0 {
        Seq::empty()
    } else {
        let keys = first_keys(keyed.drop_last());
        let before = last_normals(keyed.drop_last());
        match keys.index_of_first(keyed.last().0) {
            Some(place) => before.update(place, keyed.last().1),
            None => before.push(keyed.last().1),
        }
    }
}

/// The normals of the edges of a polygon, each with the key of its slope:
/// the normal of the edge that leaves corner `i` is owned and marked as that
/// corner is, and has `i` for its index.
pub open spec fn edge_normals(corners: Seq<Vertex>, keyed: Seq<(String, Vector)>) -> Seq<
    (Seq<char>, Vertex),
> {
    Seq::new(
        keyed.len(),
        |i: int|
            (
                keyed[i].0@,
                Vertex {
                    body: corners[i].body,
                    x: keyed[i].1.x,
                    y: keyed[i].1.y,
                    index: i as usize,
                    is_internal: corners[i].is_internal,
                },
            ),
    )
}

/// The slope that tells axes apart, from the second coordinate of a normal
/// and the quotient of its first by its second: infinite for a normal that
/// lies flat, zero without a sign for a normal that stands upright, and the
/// quotient in every other case.
pub open spec fn slope(normal_y: Scalar, quotient: Scalar) -> Scalar {
    if normal_y.eq(Scalar::zero()) {
        Scalar::infinity()
    } else if quotient.eq(Scalar::zero()) {
        Scalar::zero()
    } else {
        quotient
    }
}

impl core::ops::Index<usize> for Axes {
    type Output = Vertex;

    fn index(&self, index: usize) -> (axis: &Vertex)
        ensures
            *axis == self@[index as int],
    {
        &self.value[index]
    }
}

impl vstd::std_specs::core::IndexSpecImpl<usize> for Axes {
    open spec fn index_req(&self, index: &usize) -> bool {
        *index < self@.len()
    }
}

impl Clone for Axes {
    fn clone(&self) -> (copy: Self)
        ensures
            copy@ == self@,
    {
        Axes { value: self.value.clone() }
    }
}

impl Axes {
    pub fn new(value: &Vec<Vertex>) -> (axes: Axes)
        ensures
            axes@ == value@,
    {
        Axes { value: value.clone() }
    }

    pub fn len(&self) -> (len: usize)
        ensures
            len == self@.len(),
    {
        self.value.len()
    }

    pub fn get_value(&self) -> (value: Vec<Vertex>)
        ensures
            value@ == self@,
    {
        self.value.clone()
    }

    pub fn get(&self, index: usize) -> (axis: &Vertex)
        requires
            index < self@.len(),
        ensures
            *axis == self@[index as int],
    {
        &self.value[index]
    }

    pub fn set(&mut self, index: usize, axis: Vertex)
        requires
            index < old(self)@.len(),
        ensures
            final(self)@ == old(self)@.update(index as int, axis),
    {
        self.value.set(index, axis);
    }

    /// The slope of a normal, by which its axis is told from others.
    pub fn gradient(normal_y: Scalar, quotient: Scalar) -> (gradient: Scalar)
        ensures
            gradient == slope(normal_y, quotient),
    {
        if normal_y.eq(Scalar::zero()) {
            Scalar::infinity()
        } else if quotient.eq(Scalar::zero()) {
            Scalar::zero()
        } else {
            quotient
        }
    }

    /// The axes of a polygon, from the normal of each of its edges and the
    /// key of the slope of that normal: normals with the same key are one
    /// axis. The axis stands where its key first came and is the normal that
    /// came last under it.
    pub fn from_keyed_normals(vertices: &Vertices, keyed: Vec<(String, Vector)>) -> (axes: Axes)
        requires
            keyed@.len() == vertices@.len(),
        ensures
            axes@ == last_normals(edge_normals(vertices@, keyed@)),
    {
        let mut axes: OrderedHashMap<Vertex> = OrderedHashMap::new();
        let mut index: usize = 0;
        while index < keyed.len()
            invariant
                index <= keyed@.len(),
                keyed@.len() == vertices@.len(),
                axes.wf(),
                axes.key_texts() == first_keys(
                    edge_normals(vertices@, keyed@).subrange(0, index as int),
                ),
                axes.values@ == last_normals(
                    edge_normals(vertices@, keyed@).subrange(0, index as int),
                ),
            decreases keyed@.len() - index,
        {
            let corner = vertices.get(index);
            let normal = Vertex::new(
                corner.body,
                keyed[index].1.x,
                keyed[index].1.y,
                index,
                corner.is_internal,
            );
            proof {
                let before = edge_normals(vertices@, keyed@).subrange(0, index as int);
                let after = edge_normals(vertices@, keyed@).subrange(0, index + 1);
                assert(after.drop_last() == before);
                assert(after.last() == (keyed@[index as int].0@, normal));
                first_keys(before).index_of_first_ensures(after.last().0);
                match first_keys(before).index_of_first(after.last().0) {
                    Some(place) => {
                        assert(axes.first_place(after.last().0, place));
                    },
                    None => {
                        assert(!axes.has_key(after.last().0));
                    },
                }
            }
            let key = keyed[index].0.clone();
            axes.insert(key, normal);
            index += 1;
        }
        assert(edge_normals(vertices@, keyed@).subrange(0, index as int) == edge_normals(
            vertices@,
            keyed@,
        ));
        Axes { value: axes.values }
    }
}

/// No key stands twice among the first keys, every key that came is among
/// them and none that did not, and each has its normal.
pub proof fn lemma_first_keys(keyed: Seq<(Seq<char>, Vertex)>)
    ensures
        first_keys(keyed).no_duplicates(),
        forall|i: int| 0 <= i < keyed.len() ==> first_keys(keyed).contains((#[trigger] keyed[i]).0),
        forall|key: Seq<char>|
            first_keys(keyed).contains(key) ==> exists|i: int|
                0 <= i < keyed.len() && (#[trigger] keyed[i]).0 == key,
        last_normals(keyed).len() == first_keys(keyed).len(),
    decreases keyed.len(),
{
    if keyed.len() > 0 {
        let front = keyed.drop_last();
        lemma_first_keys(front);
        let keys = first_keys(front);
        keys.index_of_first_ensures(keyed.last().0);
        assert forall|i: int| 0 <= i < keyed.len() implies first_keys(keyed).contains(
            (#[trigger] keyed[i]).0,
        ) by {
            if i < keyed.len() - 1 {
                assert(front[i] == keyed[i]);
                let at = keys.index_of(keyed[i].0);
                assert(first_keys(keyed)[at] == keyed[i].0);
            } else {
                assert(keyed[i] == keyed.last());
                if keys.contains(keyed.last().0) {
                } else {
                    assert(first_keys(keyed)[keys.len() as int] == keyed.last().0);
                }
            }
        }
        assert forall|key: Seq<char>| first_keys(keyed).contains(key) implies exists|i: int|
            0 <= i < keyed.len() && (#[trigger] keyed[i]).0 == key by {
            if keys.contains(key) {
                let i = choose|i: int| 0 <= i < front.len() && (#[trigger] front[i]).0 == key;
                assert(keyed[i].0 == key);
            } else {
                let at = first_keys(keyed).index_of(key);
                assert(at == keys.len());
                assert(keyed[keyed.len() - 1].0 == key);
            }
        }
    }
}

/// The axis of a key is the normal that came last under that key.
pub proof fn lemma_last_normals(keyed: Seq<(Seq<char>, Vertex)>, i: int)
    requires
        0 <= i < keyed.len(),
        forall|j: int| i < j < keyed.len() ==> (#[trigger] keyed[j]).0 != keyed[i].0,
    ensures
        first_keys(keyed).contains(keyed[i].0),
        0 <= first_keys(keyed).index_of(keyed[i].0) < last_normals(keyed).len(),
        last_normals(keyed)[first_keys(keyed).index_of(keyed[i].0)] == keyed[i].1,
    decreases keyed.len(),
{
    lemma_first_keys(keyed);
    let front = keyed.drop_last();
    lemma_first_keys(front);
    let keys = first_keys(front);
    let key = keyed[i].0;
    keys.index_of_first_ensures(keyed.last().0);
    if i < keyed.len() - 1 {
        assert(front[i] == keyed[i]);
        assert forall|j: int| i < j < front.len() implies (#[trigger] front[j]).0 != front[i].0 by {
            assert(front[j] == keyed[j]);
        }
        lemma_last_normals(front, i);
        assert(keyed.last() == keyed[keyed.len() - 1]);
        assert(keyed.last().0 != key);
        let at = keys.index_of(key);
        assert(first_keys(keyed)[at] == key);
        assert(first_keys(keyed).index_of(key) == at) by {
            let other = first_keys(keyed).index_of(key);
            assert(first_keys(keyed)[other] == key);
        }
    } else {
        assert(keyed[i] == keyed.last());
        if keys.contains(key) {
            assert(keys[keys.index_of(key)] == key);
        } else {
            assert(first_keys(keyed)[keys.len() as int] == key);
            assert(first_keys(keyed).index_of(key) == keys.len()) by {
                let other = first_keys(keyed).index_of(key);
                assert(first_keys(keyed)[other] == key);
            }
        }
    }
}

} // verus!
