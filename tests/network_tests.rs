use dannn::{Category, Connection, Error, Network, NodeSelectionTable};

#[test]
fn generate_layer_to_network() {
    let mut network = Network::new();
    let _ = network.generate_layer_to_network();
    let _ = network.generate_node_to_layer(201, 0);
    assert_eq!(format!("{:?}", network), "Network { layers: [Layer { nodes: [Node { node_type_id: 201, connections: [], state: 0 }] }], inputs: [], node_selection_table: NodeSelectionTable { node_type_mapping_descriptors: {} } }")
}

#[test]
fn add_node_to_missing_layer_fails() {
    let mut network = Network::new();
    assert_eq!(network.generate_node_to_layer(201, 0), Err(Error::InvalidLayer));
    assert_eq!(network.generate_layer_to_network(), 0);
    assert_eq!(network.generate_node_to_layer(201, 1), Err(Error::InvalidLayer));
    assert_eq!(network.generate_node_to_layer(201, 0), Ok(0));
    assert_eq!(network.generate_node_to_layer(104, 0), Ok(1));
    let node = network.get_node(0, 1).unwrap();
    assert_eq!(node.state, 0);
    assert!(node.connections.is_empty());
    assert_eq!(node.node_type_id, 104);
}

#[test]
fn accessors_check_bounds() {
    let mut network = Network::new();
    assert!(matches!(network.get_layer(0), Err(Error::InvalidLayer)));
    network.generate_layer_to_network();
    assert!(network.get_layer(0).unwrap().nodes.is_empty());
    assert!(matches!(network.get_node(0, 0), Err(Error::InvalidNode)));
    assert!(matches!(network.get_node(1, 0), Err(Error::InvalidLayer)));
    assert_eq!(
        network.add_connection(0, 0, Connection::ConstantReference(1)),
        Err(Error::InvalidNode)
    );
}

fn sample_network() -> Network {
    let mut table = NodeSelectionTable::new();
    table.enable_category(Category::Logic);
    table.enable_category(Category::SimpleArithmetic);
    let mut network = Network::with_table(table);
    network.set_inputs(vec![4, 6]);
    network.generate_layer_to_network();
    network.generate_layer_to_network();
    // layer 0: sum of both inputs, then that sum negated
    network.generate_node_to_layer(201, 0).unwrap();
    network.add_connection(0, 0, Connection::InputReference(0)).unwrap();
    network.add_connection(0, 0, Connection::InputReference(1)).unwrap();
    network.generate_node_to_layer(104, 0).unwrap();
    network.add_connection(0, 1, Connection::NodeReference { layer: 0, node: 0 }).unwrap();
    // layer 1: product of the two earlier nodes and a constant
    network.generate_node_to_layer(203, 1).unwrap();
    network.add_connection(1, 0, Connection::NodeReference { layer: 0, node: 0 }).unwrap();
    network.add_connection(1, 0, Connection::NodeReference { layer: 0, node: 1 }).unwrap();
    network.add_connection(1, 0, Connection::ConstantReference(2)).unwrap();
    network
}

#[test]
fn forward_pass_in_order() {
    let mut network = sample_network();
    network.evaluate();
    assert_eq!(network.get_node(0, 0).unwrap().state, 10);
    assert_eq!(network.get_node(0, 1).unwrap().state, -10);
    assert_eq!(network.get_node(1, 0).unwrap().state, -200);
}

#[test]
fn forward_pass_is_repeatable() {
    let mut a = sample_network();
    let mut b = sample_network();
    a.evaluate();
    b.evaluate_with_draws(&vec![vec![1, 2], vec![3]]);
    for (l, n) in [(0usize, 0usize), (0, 1), (1, 0)] {
        assert_eq!(a.get_node(l, n).unwrap().state, b.get_node(l, n).unwrap().state);
    }
}

#[test]
fn disabled_type_and_dangling_reference_leave_state() {
    let mut network = Network::new();
    network.generate_layer_to_network();
    network.generate_node_to_layer(201, 0).unwrap();
    network.add_connection(0, 0, Connection::ConstantReference(5)).unwrap();
    assert_eq!(network.evaluate_node(0, 0, 0), Ok(None));
    assert_eq!(network.get_node(0, 0).unwrap().state, 0);

    let mut table = NodeSelectionTable::new();
    table.enable_by_id(201);
    network.set_node_selection_table(table);
    assert_eq!(network.evaluate_node(0, 0, 0), Ok(Some(5)));
    network.add_connection(0, 0, Connection::InputReference(3)).unwrap();
    assert_eq!(network.evaluate_node(0, 0, 0), Ok(None));
    assert_eq!(network.get_node(0, 0).unwrap().state, 5);
    assert_eq!(network.evaluate_node(1, 0, 0), Err(Error::InvalidLayer));
    assert_eq!(network.evaluate_node(0, 1, 0), Err(Error::InvalidNode));
}

#[test]
fn random_node_in_network_stays_within_bounds() {
    let mut table = NodeSelectionTable::new();
    table.enable_special_functions();
    let mut network = Network::with_table(table);
    network.generate_layer_to_network();
    network.generate_node_to_layer(401, 0).unwrap();
    network.add_connection(0, 0, Connection::ConstantReference(-2)).unwrap();
    network.add_connection(0, 0, Connection::ConstantReference(2)).unwrap();
    for _ in 0..20 {
        network.evaluate();
        let s = network.get_node(0, 0).unwrap().state;
        assert!((-2..=2).contains(&s));
    }
}
