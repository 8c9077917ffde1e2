use image_sorter::selection::{check_dimension, check_shape, Criteria, CriteriaError, Verdict};

#[test]
fn test_check_dimension() {
    let min_width = Some(100);
    let min_height = Some(100);
    let max_width = Some(1000);
    let max_height = Some(1000);
    let width = 500;
    let height = 500;
    let result = check_dimension(min_width, min_height, max_width, max_height, width, height);
    assert_eq!(result, true);
}

#[test]
fn test_check_dimension_without_min() {
    let min_width = None;
    let min_height = None;
    let max_width = Some(1000);
    let max_height = Some(1000);
    let width = 500;
    let height = 500;
    let result = check_dimension(min_width, min_height, max_width, max_height, width, height);
    let width = 1500;
    let height = 1500;
    assert_eq!(result, true);
    let result = check_dimension(min_width, min_height, max_width, max_height, width, height);
    assert_eq!(result, false);
}

#[test]
fn test_check_dimension_without_max() {
    let min_width = Some(100);
    let min_height = Some(100);
    let max_width = None;
    let max_height = None;
    let width = 500;
    let height = 500;
    let result = check_dimension(min_width, min_height, max_width, max_height, width, height);
    assert_eq!(result, true);
    let width = 50;
    let height = 50;
    let result = check_dimension(min_width, min_height, max_width, max_height, width, height);
    assert_eq!(result, false);
}

#[test]
fn dimension_bounds_are_inclusive_below_and_exclusive_above() {
    assert!(check_dimension(Some(100), Some(100), None, None, 100, 100));
    assert!(!check_dimension(None, None, Some(1000), Some(1000), 1000, 999));
    assert!(!check_dimension(None, None, Some(1000), Some(1000), 999, 1000));
    assert!(check_dimension(None, None, Some(1000), Some(1000), 999, 999));
    assert!(check_dimension(None, None, None, None, u32::MAX, 1));
    assert!(!check_dimension(None, Some(10), None, None, 500, 9));
}

#[test]
fn square_images_match_square_only() {
    assert!(check_shape(true, false, false, 300, 300));
    assert!(check_shape(true, true, false, 300, 300));
    assert!(check_shape(true, false, true, 1, 1));
    assert!(!check_shape(false, true, false, 300, 300));
    assert!(!check_shape(false, false, true, 300, 300));
}

#[test]
fn vertical_images_match_vertical_only() {
    assert!(check_shape(false, true, false, 200, 400));
    assert!(!check_shape(false, false, true, 200, 400));
    assert!(!check_shape(true, true, false, 200, 400));
}

#[test]
fn landscape_images_match_landscape_only() {
    assert!(check_shape(false, false, true, 400, 200));
    assert!(!check_shape(false, true, false, 400, 200));
    assert!(!check_shape(true, false, true, 400, 200));
}

#[test]
fn no_shape_requested_selects_nothing() {
    assert!(!check_shape(false, false, false, 300, 300));
    assert!(!check_shape(false, false, false, 200, 400));
    assert!(!check_shape(false, false, false, 400, 200));
}

#[test]
fn vertical_with_landscape_is_refused() {
    let r = Criteria::new(false, true, true, None, None, None, None);
    assert!(matches!(r, Err(CriteriaError::VerticalAndLandscape)));
}

#[test]
fn criteria_keep_their_fields() {
    let c = Criteria::new(true, true, false, Some(1), Some(2), Some(3), Some(4)).unwrap();
    assert!(c.square && c.vertical && !c.landscape);
    assert_eq!((c.min_width, c.min_height, c.max_width, c.max_height), (Some(1), Some(2), Some(3), Some(4)));
}

#[test]
fn classify_gives_each_verdict() {
    let c = Criteria::new(true, false, false, Some(100), Some(100), Some(1000), Some(1000)).unwrap();
    assert_eq!(c.classify(None), Verdict::Unidentified);
    assert_eq!(c.classify(Some((0, 500))), Verdict::Degenerate);
    assert_eq!(c.classify(Some((500, 0))), Verdict::Degenerate);
    assert_eq!(c.classify(Some((500, 500))), Verdict::Selected(500, 500));
    assert_eq!(c.classify(Some((500, 400))), Verdict::Rejected(500, 400));
    assert_eq!(c.classify(Some((1500, 1500))), Verdict::Rejected(1500, 1500));
    assert!(c.selects(999, 999));
    assert!(!c.selects(99, 99));
}
