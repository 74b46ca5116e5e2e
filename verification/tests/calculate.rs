use substrate_course::calculate::do_calculate;

#[test]
fn do_test_calculate() {
    let input = [1, 2, 3];
    println!("{:?}", do_calculate(&input));
    assert_eq!(do_calculate(&input), Some(6));
    let input = [u32::MAX, 2, 3];
    println!("{:?}", do_calculate(&input));
    assert_eq!(do_calculate(&input), None);
}

#[test]
fn calculate_empty_is_zero() {
    assert_eq!(do_calculate(&[]), Some(0));
}

#[test]
fn calculate_exactly_max_fits() {
    assert_eq!(do_calculate(&[u32::MAX - 5, 2, 3]), Some(u32::MAX));
    assert_eq!(do_calculate(&[u32::MAX - 6, 2, 3, 1]), Some(u32::MAX));
    assert_eq!(do_calculate(&[u32::MAX - 5, 2, 3, 1]), None);
}

#[test]
fn calculate_zeros_after_overflow_still_none() {
    assert_eq!(do_calculate(&[u32::MAX, 1, 0, 0]), None);
}

#[test]
fn calculate_ignores_order() {
    assert_eq!(do_calculate(&[3, 1, 2]), do_calculate(&[1, 2, 3]));
    // An early overflow in one order is a late one in another: both are `None`.
    assert_eq!(do_calculate(&[u32::MAX, 1, 0]), None);
    assert_eq!(do_calculate(&[0, 1, u32::MAX]), None);
}
