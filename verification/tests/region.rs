use engine::region::Region;

#[test]
fn debug_should_work() {
    let region = Region::new(10, 20, 100, 200);
    assert_eq!("Region { left: 10, top: 20, width: 100, height: 200 }", format!("{:?}", region));
}

#[test]
fn display_should_work() {
    let region = Region::new(10, 20, 100, 200);
    assert_eq!("(10, 20, 100, 200)", region.to_string());
}

#[test]
fn clipping_should_work() {
    let viewport = Region::new(0, 0, 300, 200);
    let changed = Region::new(90, 10, 10, 100);
    let clipped = Region::new(90, 10, 10, 100);
    assert_eq!(clipped, changed.clip(&viewport));
    let viewport = Region::new(10, 10, 200, 200);
    let changed = Region::new(180, 0, 120, 300);
    let clipped = Region::new(180, 10, 30, 200);
    assert_eq!(clipped, changed.clip(&viewport));
}

#[test]
fn new_keeps_what_it_is_given() {
    let region = Region::new(3, 5, 7, 11);
    assert_eq!(3, region.left());
    assert_eq!(5, region.top());
    assert_eq!(7, region.width());
    assert_eq!(11, region.height());
    assert_eq!((3, 5), region.offset());
    assert_eq!((7, 11), region.size());
    let empty = Region::new(0, 0, 0, 0);
    assert_eq!((0, 0), empty.offset());
    assert_eq!((0, 0), empty.size());
}

#[test]
fn far_edges_are_offset_plus_extent_less_one() {
    let region = Region::new(10, 20, 100, 200);
    assert_eq!(109, region.right());
    assert_eq!(219, region.bottom());
    let cell = Region::new(4, 9, 1, 1);
    assert_eq!(4, cell.right());
    assert_eq!(9, cell.bottom());
}

#[test]
fn far_edges_never_lie_before_the_near_edges() {
    let regions = [
        Region::new(0, 0, 1, 1),
        Region::new(0, 0, 0, 0),
        Region::new(7, 3, 0, 5),
        Region::new(7, 3, 5, 0),
        Region::new(usize::MAX, usize::MAX, 1, 1),
        Region::new(usize::MAX, usize::MAX, usize::MAX, usize::MAX),
        Region::new(12, 34, 56, 78),
    ];
    for region in regions {
        assert!(region.right() >= region.left());
        assert!(region.bottom() >= region.top());
    }
}

#[test]
fn far_edges_of_a_region_without_extent_are_its_offset() {
    let flat = Region::new(7, 3, 5, 0);
    assert_eq!(11, flat.right());
    assert_eq!(3, flat.bottom());
    let thin = Region::new(7, 3, 0, 5);
    assert_eq!(7, thin.right());
    assert_eq!(7, thin.bottom());
    let point = Region::new(usize::MAX, 0, 0, 0);
    assert_eq!(usize::MAX, point.right());
    assert_eq!(0, point.bottom());
}

#[test]
fn far_edges_stop_at_the_largest_number() {
    let region = Region::new(10, 20, usize::MAX, usize::MAX);
    assert_eq!(usize::MAX, region.right());
    assert_eq!(usize::MAX, region.bottom());
    let exact = Region::new(1, 2, usize::MAX, usize::MAX - 1);
    assert_eq!(usize::MAX, exact.right());
    assert_eq!(usize::MAX, exact.bottom());
    let last = Region::new(usize::MAX, usize::MAX, 2, 3);
    assert_eq!(usize::MAX, last.right());
    assert_eq!(usize::MAX, last.bottom());
}

#[test]
fn resize_changes_the_size_only() {
    let mut region = Region::new(10, 20, 100, 200);
    region.resize(1, 2);
    assert_eq!(Region::new(10, 20, 1, 2), region);
    region.resize(0, 0);
    assert_eq!((10, 20), region.offset());
    assert_eq!((0, 0), region.size());
    region.resize(usize::MAX, 5);
    assert_eq!(Region::new(10, 20, usize::MAX, 5), region);
}

#[test]
fn clip_of_a_contained_region_is_that_region() {
    let inner = Region::new(90, 10, 10, 100);
    let outer = Region::new(0, 0, 300, 200);
    assert_eq!(Region::new(90, 10, 10, 100), inner.clip(&outer));
    assert_eq!(Region::new(90, 10, 10, 100), outer.clip(&inner));
}

#[test]
fn clip_of_a_partial_overlap() {
    let changed = Region::new(180, 0, 120, 300);
    let viewport = Region::new(10, 10, 200, 200);
    assert_eq!(Region::new(180, 10, 30, 200), changed.clip(&viewport));
}

#[test]
fn clip_is_symmetric() {
    let regions = [
        Region::new(0, 0, 300, 200),
        Region::new(90, 10, 10, 100),
        Region::new(180, 0, 120, 300),
        Region::new(10, 10, 200, 200),
        Region::new(0, 0, 0, 0),
        Region::new(500, 500, 1, 1),
        Region::new(5, 5, 0, 9),
        Region::new(usize::MAX - 3, 2, 10, usize::MAX),
    ];
    for a in regions {
        for b in regions {
            assert_eq!(a.clip(&b), b.clip(&a));
        }
    }
}

#[test]
fn clip_with_itself_gives_the_region_back() {
    let regions = [
        Region::new(0, 0, 300, 200),
        Region::new(90, 10, 10, 100),
        Region::new(7, 9, 1, 1),
        Region::new(usize::MAX, usize::MAX, 1, 1),
        Region::new(1, 1, usize::MAX, usize::MAX),
    ];
    for a in regions {
        assert_eq!(a, a.clip(&a));
    }
}

#[test]
fn clip_with_itself_of_a_region_without_extent_or_cut_off() {
    let empty = Region::new(4, 6, 0, 0);
    assert_eq!(Region::new(4, 6, 1, 1), empty.clip(&empty));
    let thin = Region::new(4, 6, 0, 3);
    assert_eq!(Region::new(4, 6, 1, 3), thin.clip(&thin));
    let cut = Region::new(5, 0, usize::MAX, 1);
    assert_eq!(Region::new(5, 0, usize::MAX - 4, 1), cut.clip(&cut));
}

#[test]
fn clip_of_regions_apart_has_no_extent() {
    let a = Region::new(0, 0, 10, 10);
    let right = Region::new(20, 0, 5, 5);
    assert_eq!(Region::new(20, 0, 0, 5), a.clip(&right));
    let below = Region::new(0, 20, 5, 5);
    assert_eq!(Region::new(0, 20, 5, 0), a.clip(&below));
    let far = Region::new(10, 10, 5, 5);
    assert_eq!(Region::new(10, 10, 0, 0), a.clip(&far));
    assert_eq!(0, right.clip(&a).width());
    assert_eq!(0, below.clip(&a).height());
}

#[test]
fn clip_of_touching_regions_is_the_shared_line() {
    let a = Region::new(0, 0, 10, 10);
    let b = Region::new(9, 9, 10, 10);
    assert_eq!(Region::new(9, 9, 1, 1), a.clip(&b));
    let c = Region::new(9, 0, 4, 4);
    assert_eq!(Region::new(9, 0, 1, 4), a.clip(&c));
}

#[test]
fn clip_counts_a_region_without_extent_as_one_cell() {
    let empty = Region::new(0, 0, 0, 0);
    let unit = Region::new(0, 0, 1, 1);
    assert_eq!(Region::new(0, 0, 1, 1), empty.clip(&unit));
    let inside = Region::new(3, 4, 0, 0);
    let outer = Region::new(0, 0, 10, 10);
    assert_eq!(Region::new(3, 4, 1, 1), inside.clip(&outer));
    let outside = Region::new(30, 4, 0, 0);
    assert_eq!(Region::new(30, 4, 0, 1), outside.clip(&outer));
}

#[test]
fn clip_of_the_largest_region_stops_at_the_largest_number() {
    let all = Region::new(0, 0, usize::MAX, usize::MAX);
    assert_eq!(usize::MAX - 1, all.right());
    assert_eq!(all, all.clip(&all));
    let beyond = Region::new(1, 0, usize::MAX, 1);
    assert_eq!(usize::MAX, beyond.right());
    let whole = Region::new(0, 0, usize::MAX, 1);
    assert_eq!(Region::new(1, 0, usize::MAX - 1, 1), beyond.clip(&whole));
}

#[test]
fn adjust_left_follows_a_column_before_the_left_edge() {
    let mut region = Region::new(10, 20, 30, 40);
    assert!(region.adjust_left(9, 1));
    assert_eq!(Region::new(9, 20, 30, 40), region);
    assert!(!region.adjust_left(9, 1));
    assert!(!region.adjust_left(50, 1));
    assert_eq!(Region::new(9, 20, 30, 40), region);
    assert!(region.adjust_left(0, 4));
    assert_eq!(Region::new(5, 20, 30, 40), region);
    assert!(region.adjust_left(0, 100));
    assert_eq!(Region::new(0, 20, 30, 40), region);
    assert!(!region.adjust_left(0, 1));
}

#[test]
fn adjust_right_follows_a_column_behind_the_right_edge() {
    let mut region = Region::new(10, 20, 30, 40);
    assert!(!region.adjust_right(39, 1));
    assert!(region.adjust_right(40, 1));
    assert_eq!(Region::new(11, 20, 30, 40), region);
    assert!(!region.adjust_right(40, 1));
    assert!(region.adjust_right(100, 7));
    assert_eq!(Region::new(18, 20, 30, 40), region);
    assert!(!region.adjust_right(0, 1));
    let mut last = Region::new(usize::MAX - 2, 0, 2, 1);
    assert!(last.adjust_right(usize::MAX, 5));
    assert_eq!(Region::new(usize::MAX, 0, 2, 1), last);
    assert!(!last.adjust_right(usize::MAX, 5));
}

#[test]
fn adjust_up_follows_a_row_above_the_top_edge() {
    let mut region = Region::new(10, 20, 30, 40);
    assert!(!region.adjust_up(20, 1));
    assert!(region.adjust_up(19, 1));
    assert_eq!(Region::new(10, 19, 30, 40), region);
    assert!(region.adjust_up(0, 50));
    assert_eq!(Region::new(10, 0, 30, 40), region);
    assert!(!region.adjust_up(0, 1));
}

#[test]
fn adjust_down_follows_a_row_below_the_bottom_edge() {
    let mut region = Region::new(0, 0, 80, 24);
    assert!(!region.adjust_down(23, 1));
    assert!(region.adjust_down(24, 1));
    assert_eq!(Region::new(0, 1, 80, 24), region);
    assert!(!region.adjust_down(24, 1));
    assert!(region.adjust_down(30, 3));
    assert_eq!(Region::new(0, 4, 80, 24), region);
}

#[test]
fn adjust_by_no_step_moves_nothing() {
    let mut region = Region::new(10, 20, 30, 40);
    assert!(!region.adjust_left(0, 0));
    assert!(!region.adjust_right(100, 0));
    assert!(!region.adjust_up(0, 0));
    assert!(!region.adjust_down(100, 0));
    assert_eq!(Region::new(10, 20, 30, 40), region);
}

#[test]
fn to_string_writes_every_number_in_decimal() {
    assert_eq!("(0, 0, 0, 0)", Region::new(0, 0, 0, 0).to_string());
    assert_eq!("(9, 10, 99, 100)", Region::new(9, 10, 99, 100).to_string());
    let largest = Region::new(usize::MAX, 1, usize::MAX, 12345);
    assert_eq!(format!("({}, 1, {}, 12345)", usize::MAX, usize::MAX), largest.to_string());
}

#[test]
fn regions_are_equal_when_offset_and_size_are() {
    assert_eq!(Region::new(1, 2, 3, 4), Region::new(1, 2, 3, 4));
    assert_ne!(Region::new(1, 2, 3, 4), Region::new(0, 2, 3, 4));
    assert_ne!(Region::new(1, 2, 3, 4), Region::new(1, 0, 3, 4));
    assert_ne!(Region::new(1, 2, 3, 4), Region::new(1, 2, 0, 4));
    assert_ne!(Region::new(1, 2, 3, 4), Region::new(1, 2, 3, 0));
    let region = Region::new(1, 2, 3, 4);
    let copy = region;
    assert_eq!(region, copy.clone());
}
