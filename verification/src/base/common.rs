use crate::scalar::Scalar;
use vstd::prelude::*;

verus! {

/// Bit pattern of the reference step, a sixtieth of a second in milliseconds.
pub const BASE_DELTA_BITS: u64 = 0x4030_aaaa_aaaa_aaab;

/// What kind of shape an entity is.
#[derive(Clone, Copy, Debug)]
pub enum ShapeType {
    Body,
}

impl Default for ShapeType {
    fn default() -> (kind: Self)
        ensures
            kind == ShapeType::Body,
    {
        ShapeType::Body
    }
}

/// A map from text keys to values that remembers the order in which the keys
/// first came.
pub struct OrderedHashMap<T> {
    pub keys: Vec<String>,
    pub values: Vec<T>,
}

impl<T> OrderedHashMap<T> {
    /// The keys as texts, in order of first insertion.
    pub open spec fn key_texts(&self) -> Seq<Seq<char>> {
        self.keys@.map_values(|key: String| key@)
    }

    /// Every key has its value.
    pub open spec fn wf(&self) -> bool {
        self.keys@.len() == self.values@.len()
    }

    /// No key stands twice.
    pub open spec fn distinct(&self) -> bool {
        self.key_texts().no_duplicates()
    }

    /// `key` is among the keys.
    pub open spec fn has_key(&self, key: Seq<char>) -> bool {
        exists|i: int| 0 <= i < self.keys@.len() && #[trigger] self.key_texts()[i] == key
    }

    /// `key` stands at `place` and nowhere before it.
    pub open spec fn first_place(&self, key: Seq<char>, place: int) -> bool {
        &&& 0 <= place < self.keys@.len()
        &&& self.key_texts()[place] == key
        &&& forall|i: int| 0 <= i < place ==> #[trigger] self.key_texts()[i] != key
    }

    pub fn new() -> (map: OrderedHashMap<T>)
        ensures
            map.wf(),
            map.distinct(),
            map.keys@.len() == 0,
            map.values@.len() == 0,
    {
        OrderedHashMap { keys: Vec::new(), values: Vec::new() }
    }

    /// Gives `key` the value `value`. A key that is there keeps its place,
    /// and where it first stands its value is replaced; a new key goes to
    /// the end with its value.
    pub fn insert(&mut self, key: String, value: T)
        requires
            old(self).wf(),
        ensures
            final(self).wf(),
            old(self).distinct() ==> final(self).distinct(),
            forall|place: int| #[trigger]
                old(self).first_place(key@, place) ==> {
                    &&& final(self).key_texts() == old(self).key_texts()
                    &&& final(self).values@ == old(self).values@.update(place, value)
                },
            !old(self).has_key(key@) ==> {
                &&& final(self).key_texts() == old(self).key_texts().push(key@)
                &&& final(self).values@ == old(self).values@.push(value)
            },
    {
        let mut index: usize = 0;
        let mut found = false;
        while index < self.keys.len()
            invariant_except_break
                !found,
            invariant
                index <= self.keys@.len(),
                *self == *old(self),
                forall|i: int| 0 <= i < index ==> self.key_texts()[i] != key@,
            ensures
                found ==> index < self.keys@.len() && self.key_texts()[index as int] == key@,
                !found ==> index == self.keys@.len(),
            decreases self.keys@.len() - index,
        {
            if self.keys[index] == key {
                found = true;
                break;
            }
            index += 1
        }
        if found {
            self.values.set(index, value);
            assert(self.key_texts() == old(self).key_texts());
        } else {
            self.keys.push(key);
            self.values.push(value);
            assert(self.key_texts() =~= old(self).key_texts().push(key@));
        }
    }
}

/// The bits of an id that say what kind of id it is.
pub const ID_KIND_MASK: u128 = 0x0000_0000_0000_f000_c000_0000_0000_0000;

/// What those bits hold in an id that was drawn at random.
pub const ID_KIND_RANDOM: u128 = 0x0000_0000_0000_4000_8000_0000_0000_0000;

/// `uuid::Uuid::new_v4`, with the new id handed out as the 128 bits it is made
/// of (`Uuid::as_u128`). The bits are drawn at random, all but the six that
/// mark the id as a version 4 of the usual variant.
#[verifier::external_body]
pub fn next_id() -> (id: u128)
    ensures
        id & ID_KIND_MASK == ID_KIND_RANDOM,
{
    uuid::Uuid::new_v4().as_u128()
}

/// `value` held to the interval from `min` to `max`: `min` where it is below,
/// `max` where it is above and not below, itself otherwise (so also where it
/// is not a number).
pub open spec fn clamped(value: Scalar, min: Scalar, max: Scalar) -> Scalar {
    if value.lt(min) {
        min
    } else if value.gt(max) {
        max
    } else {
        value
    }
}

pub fn clamp(value: Scalar, min: Scalar, max: Scalar) -> (held: Scalar)
    ensures
        held == clamped(value, min, max),
{
    if value.lt(min) {
        min
    } else if value.gt(max) {
        max
    } else {
        value
    }
}

/// A number held to an interval of numbers lies in the interval, and a
/// number that lies in it is left as it is.
pub proof fn lemma_clamped_lies_between(value: Scalar, min: Scalar, max: Scalar)
    requires
        min.le(max),
        !value.nan(),
    ensures
        min.le(clamped(value, min, max)),
        clamped(value, min, max).le(max),
        min.le(value) && value.le(max) ==> clamped(value, min, max) == value,
{
}

/// -1 for a number below zero, 1 for everything else.
pub fn sign(value: Scalar) -> (sign: i8)
    ensures
        sign == if value.lt(Scalar::zero()) { -1i8 } else { 1i8 },
{
    if value.lt(Scalar::zero()) {
        -1
    } else {
        1
    }
}

} // verus!
