use vstd::prelude::*;

verus! {

/// Category, mask and group by which the broad phase decides which pairs of
/// bodies may interact.
#[derive(Clone, Copy, Debug)]
pub struct CollisionFilter {
    pub category: u16,
    pub mask: u32,
    pub group: u16,
}

impl CollisionFilter {
    pub fn new(category: u16, mask: u32, group: u16) -> (filter: Self)
        ensures
            filter == (CollisionFilter { category, mask, group }),
    {
        CollisionFilter { category, mask, group }
    }

    pub fn get_category(&self) -> (category: u16)
        ensures
            category == self.category,
    {
        self.category
    }

    pub fn get_mask(&self) -> (mask: u32)
        ensures
            mask == self.mask,
    {
        self.mask
    }

    pub fn get_group(&self) -> (group: u16)
        ensures
            group == self.group,
    {
        self.group
    }
}

impl Default for CollisionFilter {
    fn default() -> (filter: Self)
        ensures
            filter == (CollisionFilter { category: 0, mask: 0, group: 0 }),
    {
        CollisionFilter { category: 0, mask: 0, group: 0 }
    }
}

} // verus!
