use dannn::{Category, Error, NodeSelectionTable, FULL_PREVALENCE};

#[test]
fn initialize() {
    let node_selection_table = NodeSelectionTable::new();
    assert_eq!(node_selection_table.len(), 0);
}

#[test]
fn node_selection_table_test() {
    let mut table = NodeSelectionTable::new();
    table.enable_all();
    for key in 0..500usize {
        if let Some(value) = table.get_descriptor(key) {
            println!("{} - {}, {}", key, value.name, value.description);
        }
    }
    assert_eq!(table.len(), 46);
}

#[test]
fn descriptor_enabling_by_id_test() {
    let mut table = NodeSelectionTable::new();
    table.enable_by_id(201);
    assert_eq!(table.len(), 1);
    let value = table.get_descriptor(201).unwrap();
    let min: usize = value.minimum_connections.unwrap_or(0);
    let max: usize = value.maximum_connections.unwrap_or(0);
    println!("{} - {}, {}, {}, {}, {}", 201, value.name, value.description, max, min, value.prevalence);
    assert_eq!(value.name, "Add");
    assert_eq!(value.description, "Adds all given numbers together");
    assert_eq!(min, 1);
    assert_eq!(max, 0);
    assert_eq!(value.prevalence, FULL_PREVALENCE);
}

#[test]
fn enable_then_disable_category_restores_table() {
    let mut table = NodeSelectionTable::new();
    table.enable_by_id(201);
    table.enable_category(Category::Logic);
    assert_eq!(table.len(), 18);
    table.disable_category(Category::Logic);
    assert_eq!(table.len(), 1);
    assert!(table.is_enabled(201));
    for id in 101..=117usize {
        assert!(!table.is_enabled(id));
    }
}

#[test]
fn category_sizes() {
    let cases = [
        (Category::Logic, 17usize),
        (Category::SimpleArithmetic, 4),
        (Category::AdvancedArithmetic, 20),
        (Category::StringModification, 4),
        (Category::Special, 1),
    ];
    for (c, n) in cases {
        let mut table = NodeSelectionTable::new();
        table.enable_category(c);
        assert_eq!(table.len(), n);
    }
}

#[test]
fn reenabling_restores_canonical_prevalence() {
    let mut table = NodeSelectionTable::new();
    table.enable_logic();
    assert_eq!(table.set_prevalence_by_id(101, 250000), Ok(()));
    assert_eq!(table.get_prevalence_by_id(101), Ok(250000));
    table.enable_logic();
    assert_eq!(table.get_prevalence_by_id(101), Ok(FULL_PREVALENCE));
}

#[test]
fn prevalence_of_absent_id_fails() {
    let mut table = NodeSelectionTable::new();
    assert_eq!(table.set_prevalence_by_id(101, 5), Err(Error::PrevalenceConfigure));
    assert_eq!(table.get_prevalence_by_id(101), Err(Error::PrevalenceConfigure));
    assert_eq!(table.len(), 0);
}

#[test]
fn disable_absent_id_is_no_op() {
    let mut table = NodeSelectionTable::new();
    table.enable_simple_arithmetic();
    table.disable_by_id(999);
    assert_eq!(table.len(), 4);
    table.disable_by_id(202);
    assert_eq!(table.len(), 3);
    assert!(!table.is_enabled(202));
}

#[test]
fn disable_all_empties_table() {
    let mut table = NodeSelectionTable::new();
    table.enable_all();
    table.disable_all();
    assert_eq!(table.len(), 0);
}

#[test]
fn canonical_bounds_are_ordered() {
    let mut table = NodeSelectionTable::new();
    table.enable_all();
    for id in 0..500usize {
        if let Some(d) = table.get_descriptor(id) {
            if let (Some(lo), Some(hi)) = (d.minimum_connections, d.maximum_connections) {
                assert!(lo <= hi);
            }
        }
    }
    let not_gate = table.get_descriptor(104).unwrap();
    assert_eq!(not_gate.minimum_connections, Some(1));
    assert_eq!(not_gate.maximum_connections, Some(1));
}
