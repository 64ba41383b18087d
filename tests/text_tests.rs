use dannn::{run_node, run_text_node, TextOutput};

fn t(s: &str) -> Vec<char> {
    s.chars().collect()
}

#[test]
fn remove_takes_out_every_occurrence() {
    assert_eq!(run_text_node(301, &vec![t("banana"), t("an")]), Some(TextOutput::Text(t("ba"))));
    assert_eq!(run_text_node(301, &vec![t("aaa"), t("aa")]), Some(TextOutput::Text(t("a"))));
    assert_eq!(run_text_node(301, &vec![t("abc"), t("")]), Some(TextOutput::Text(t("abc"))));
}

#[test]
fn replace_left_to_right_without_overlap() {
    assert_eq!(
        run_text_node(302, &vec![t("a-b-c"), t("-"), t("+=")]),
        Some(TextOutput::Text(t("a+=b+=c")))
    );
    assert_eq!(
        run_text_node(302, &vec![t("aaaa"), t("aa"), t("b")]),
        Some(TextOutput::Text(t("bb")))
    );
}

#[test]
fn count_occurrences_without_overlap() {
    assert_eq!(run_text_node(303, &vec![t("abababa"), t("aba")]), Some(TextOutput::Count(2)));
    assert_eq!(run_text_node(303, &vec![t("xyz"), t("q")]), Some(TextOutput::Count(0)));
    assert_eq!(run_text_node(303, &vec![t("xyz"), t("")]), Some(TextOutput::Count(0)));
}

#[test]
fn concatenate_all_inputs() {
    assert_eq!(
        run_text_node(304, &vec![t("ab"), t(""), t("c"), t("de")]),
        Some(TextOutput::Text(t("abcde")))
    );
    assert_eq!(run_text_node(304, &vec![]), None);
}

#[test]
fn text_arity_and_type_checked() {
    assert_eq!(run_text_node(301, &vec![t("a")]), None);
    assert_eq!(run_text_node(302, &vec![t("a"), t("b")]), None);
    assert_eq!(run_text_node(201, &vec![t("a"), t("b")]), None);
    assert_eq!(run_text_node(999, &vec![t("a")]), None);
}

#[test]
fn power_and_modulus() {
    assert_eq!(run_node(206, vec![3, 4]), Some(81));
    assert_eq!(run_node(206, vec![-2, 3]), Some(-8));
    assert_eq!(run_node(206, vec![5, 0]), Some(1));
    assert_eq!(run_node(206, vec![1, i64::MAX]), Some(1));
    assert_eq!(run_node(206, vec![-1, 1_000_000_001]), Some(-1));
    assert_eq!(run_node(206, vec![0, 7]), Some(0));
    assert_eq!(run_node(206, vec![2, 63]), None);
    assert_eq!(run_node(206, vec![2, 62]), Some(1 << 62));
    assert_eq!(run_node(206, vec![2, -1]), None);
    assert_eq!(run_node(220, vec![17, 5]), Some(2));
    assert_eq!(run_node(220, vec![-17, 5]), Some(-2));
    assert_eq!(run_node(220, vec![17, -5]), Some(2));
    assert_eq!(run_node(220, vec![17, 0]), None);
    assert_eq!(run_node(220, vec![i64::MIN, -1]), None);
}
