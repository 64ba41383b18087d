use dannn::{run_node, run_node_drawn};

#[test]
fn node_tests() {
    //101
    assert_eq!(run_node(101, vec![10, 20, 30, 40]).unwrap(), 10);
    assert_eq!(run_node(101, vec![10, 30, 30, 40]).unwrap(), 40);

    //102
    assert_eq!(run_node(102, vec![10, 20, 20, 40]).unwrap(), 10);
    assert_eq!(run_node(102, vec![10, 30, 30, 40]).unwrap(), 40);

    //103
    assert_eq!(run_node(103, vec![10, 20, 20, 40]).unwrap(), 40);
    assert_eq!(run_node(103, vec![10, 30, 30, 40]).unwrap(), 10);
}

#[test]
fn nand_swaps_and() {
    assert_eq!(run_node(105, vec![10, 20, 30, 40]), Some(40));
    assert_eq!(run_node(105, vec![10, 30, 30, 40]), Some(10));
}

#[test]
fn not_negates() {
    assert_eq!(run_node(104, vec![7]), Some(-7));
    assert_eq!(run_node(104, vec![-3]), Some(3));
    assert_eq!(run_node(104, vec![i64::MIN]), None);
    assert_eq!(run_node(104, vec![]), None);
    assert_eq!(run_node(104, vec![1, 2]), None);
}

#[test]
fn xor_counts_true_leaning_inputs() {
    // mean 25: only 30 and 40 lean true, an even count
    assert_eq!(run_node(106, vec![10, 20, 30, 40]), Some(10));
    // mean 25: only 40 leans true
    assert_eq!(run_node(106, vec![10, 20, 20, 40]), Some(40));
}

#[test]
fn comparison_gates() {
    assert_eq!(run_node(107, vec![5, 5, 5]), Some(5));
    assert_eq!(run_node(107, vec![5, 6, 4]), Some(4));
    assert_eq!(run_node(108, vec![3, 3, 9]), Some(9));
    assert_eq!(run_node(108, vec![3, 4, 9]), Some(0));
    assert_eq!(run_node(109, vec![8, 2]), Some(8));
    assert_eq!(run_node(109, vec![2, 8]), Some(2));
    assert_eq!(run_node(110, vec![8, 2, 11]), Some(11));
    assert_eq!(run_node(111, vec![2, 8]), Some(8));
    assert_eq!(run_node(112, vec![8, 2, 11]), Some(0));
    assert_eq!(run_node(113, vec![-4]), Some(-4));
    assert_eq!(run_node(114, vec![3, 3]), Some(3));
    assert_eq!(run_node(115, vec![3, 3, 12]), Some(12));
    assert_eq!(run_node(116, vec![4, 3]), Some(3));
    assert_eq!(run_node(117, vec![4, 3, 12]), Some(0));
}

#[test]
fn arithmetic_folds() {
    assert_eq!(run_node(201, vec![1, 2, 3, 4]), Some(10));
    assert_eq!(run_node(202, vec![10, 2, 3]), Some(5));
    assert_eq!(run_node(203, vec![2, 3, 4]), Some(24));
    assert_eq!(run_node(204, vec![100, 5, 2]), Some(10));
    assert_eq!(run_node(204, vec![-7, 2]), Some(-3));
    assert_eq!(run_node(204, vec![100, 0, 2]), None);
    assert_eq!(run_node(201, vec![i64::MAX, 1]), None);
    assert_eq!(run_node(203, vec![i64::MAX, 2]), None);
    assert_eq!(run_node(201, vec![]), None);
}

#[test]
fn single_input_arithmetic() {
    assert_eq!(run_node(213, vec![-9]), Some(9));
    assert_eq!(run_node(213, vec![i64::MIN]), None);
    assert_eq!(run_node(214, vec![6]), Some(6));
    assert_eq!(run_node(217, vec![6]), Some(-6));
    assert_eq!(run_node(218, vec![9, 4]), Some(4));
    assert_eq!(run_node(219, vec![9, 4]), Some(9));
    assert_eq!(run_node(221, vec![9]), Some(-9));
    assert_eq!(run_node(221, vec![-9]), Some(-9));
}

#[test]
fn unknown_or_non_integer_types_give_no_result() {
    assert_eq!(run_node(999, vec![1, 2]), None);
    assert_eq!(run_node(207, vec![1]), None);
    assert_eq!(run_node(304, vec![1, 2]), None);
}

#[test]
fn random_stays_within_bounds() {
    for _ in 0..50 {
        let v = run_node(401, vec![3, 9]).unwrap();
        assert!((3..=9).contains(&v));
        let w = run_node(401, vec![9, 3]).unwrap();
        assert!((3..=9).contains(&w));
    }
    assert_eq!(run_node(401, vec![5, 5]), Some(5));
    assert_eq!(run_node_drawn(401, &vec![10, 20], 3), Some(13));
    assert_eq!(run_node_drawn(401, &vec![10, 20], 14), Some(13));
    assert_eq!(run_node_drawn(401, &vec![i64::MIN, i64::MAX], 0), Some(i64::MIN));
}

#[test]
fn draw_is_ignored_outside_random() {
    assert_eq!(run_node_drawn(101, &vec![10, 20, 30, 40], 77), Some(10));
    assert_eq!(run_node_drawn(201, &vec![1, 2], 5), Some(3));
}
