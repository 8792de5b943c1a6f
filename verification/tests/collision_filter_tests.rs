use matter_core::base::collision_filter::CollisionFilter;

#[test]
fn new_should_keep_category_mask_and_group() {
    let filter = CollisionFilter::new(1, u32::MAX, 7);

    assert_eq!(filter.get_category(), 1);
    assert_eq!(filter.get_mask(), u32::MAX);
    assert_eq!(filter.get_group(), 7);
}
