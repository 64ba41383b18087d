use vstd::prelude::*;
use crate::Error;
use crate::catalog::{NodeSelectionDescriptor, NodeSelectionTable};
use crate::engine::{node_result, random_draw, run_node_drawn};

verus! {

/// One ordered input of a node: another node's state, a fixed value, or an external input slot.
#[derive(Debug, Clone, Copy, PartialEq, Eq, Structural)]
pub enum Connection {
    NodeReference { layer: usize, node: usize },
    ConstantReference(i64),
    InputReference(usize),
}

impl Connection {
    /// The current value this connection supplies in `network`, or `None` where it points
    /// nowhere.
    pub fn get_value(&self, network: &Network) -> (r: Option<i64>)
        ensures
            r == resolve(network@, *self),
    {
        network.connection_value(*self)
    }
}

/// What a node is, seen as a value.
pub struct NodeView {
    pub node_type_id: usize,
    pub connections: Seq<Connection>,
    pub state: i64,
}

/// What a network is, seen as a value.
pub struct NetworkView {
    pub layers: Seq<Seq<NodeView>>,
    pub inputs: Seq<i64>,
    pub catalog: Map<usize, NodeSelectionDescriptor>,
}

/// A node: its type, its ordered inputs, and its last computed output.
#[derive(Debug)]
pub struct Node {
    pub node_type_id: usize,
    pub connections: Vec<Connection>,
    pub state: i64,
}

impl View for Node {
    type V = NodeView;

    open spec fn view(&self) -> NodeView {
        NodeView {
            node_type_id: self.node_type_id,
            connections: self.connections@,
            state: self.state,
        }
    }
}

impl Node {
    /// A node of type `node_type_id` with no connections and state 0.
    pub fn new(node_type_id: usize) -> (r: Node)
        ensures
            r@ == (NodeView { node_type_id, connections: Seq::empty(), state: 0 }),
    {
        Node { node_type_id, connections: Vec::new(), state: 0 }
    }
}

/// An ordered group of nodes; a node's index within its layer is its address.
#[derive(Debug)]
pub struct Layer {
    pub nodes: Vec<Node>,
}

impl View for Layer {
    type V = Seq<NodeView>;

    open spec fn view(&self) -> Seq<NodeView> {
        self.nodes@.map_values(|x: Node| x@)
    }
}

impl Layer {
    /// An empty layer.
    pub fn new() -> (r: Layer)
        ensures
            r@ == Seq::<NodeView>::empty(),
    {
        let r = Layer { nodes: Vec::new() };
        assert(r@ =~= Seq::<NodeView>::empty());
        r
    }
}

/// Ordered layers of nodes, the external inputs, and the node types the network may use.
#[derive(Debug)]
pub struct Network {
    layers: Vec<Layer>,
    inputs: Vec<i64>,
    node_selection_table: NodeSelectionTable,
}

impl View for Network {
    type V = NetworkView;

    closed spec fn view(&self) -> NetworkView {
        NetworkView {
            layers: self.layers@.map_values(|l: Layer| l@),
            inputs: self.inputs@,
            catalog: self.node_selection_table@,
        }
    }
}

/// Whether `(l, n)` addresses a node of `net`.
pub open spec fn has_node(net: NetworkView, l: int, n: int) -> bool {
    0 <= l < net.layers.len() && 0 <= n < net.layers[l].len()
}

/// The current value a connection supplies, or `None` where it points nowhere.
pub open spec fn resolve(net: NetworkView, c: Connection) -> Option<i64> {
    match c {
        Connection::NodeReference { layer, node } => if has_node(net, layer as int, node as int) {
            Some(net.layers[layer as int][node as int].state)
        } else {
            None
        },
        Connection::ConstantReference(v) => Some(v),
        Connection::InputReference(i) => if i < net.inputs.len() {
            Some(net.inputs[i as int])
        } else {
            None
        },
    }
}

pub open spec fn all_resolve(net: NetworkView, cs: Seq<Connection>) -> bool {
    forall|i: int| 0 <= i < cs.len() ==> (#[trigger] resolve(net, cs[i])) is Some
}

/// The ordered input values of a connection list whose connections all resolve.
pub open spec fn resolved(net: NetworkView, cs: Seq<Connection>) -> Seq<i64> {
    Seq::new(cs.len(), |i: int| resolve(net, cs[i]).unwrap())
}

/// What node `(l, n)` outputs in `net`: no result where its type is not enabled in the
/// network's catalog or one of its connections points nowhere.
pub open spec fn node_output(net: NetworkView, l: int, n: int, draw: u64) -> Option<i64> {
    let node = net.layers[l][n];
    if net.catalog.contains_key(node.node_type_id) && all_resolve(net, node.connections) {
        node_result(node.node_type_id, resolved(net, node.connections), draw)
    } else {
        None
    }
}

/// `net` with the state of node `(l, n)` set to `v`.
pub open spec fn with_state(net: NetworkView, l: int, n: int, v: i64) -> NetworkView {
    let node = net.layers[l][n];
    NetworkView {
        layers: net.layers.update(
            l,
            net.layers[l].update(
                n,
                NodeView { node_type_id: node.node_type_id, connections: node.connections, state: v },
            ),
        ),
        inputs: net.inputs,
        catalog: net.catalog,
    }
}

/// `net` after node `(l, n)` is evaluated: its state becomes the output, or stays without one.
pub open spec fn step(net: NetworkView, l: int, n: int, draw: u64) -> NetworkView {
    match node_output(net, l, n, draw) {
        Some(v) => with_state(net, l, n, v),
        None => net,
    }
}

/// `net` with node `n` appended to layer `l`.
pub open spec fn with_node_added(net: NetworkView, l: int, node: NodeView) -> NetworkView {
    NetworkView {
        layers: net.layers.update(l, net.layers[l].push(node)),
        inputs: net.inputs,
        catalog: net.catalog,
    }
}

/// `net` with connection `c` appended to the inputs of node `(l, n)`.
pub open spec fn with_connection_added(net: NetworkView, l: int, n: int, c: Connection) -> NetworkView {
    let node = net.layers[l][n];
    NetworkView {
        layers: net.layers.update(
            l,
            net.layers[l].update(
                n,
                NodeView {
                    node_type_id: node.node_type_id,
                    connections: node.connections.push(c),
                    state: node.state,
                },
            ),
        ),
        inputs: net.inputs,
        catalog: net.catalog,
    }
}

impl Network {
    /// An empty network with an empty catalog and no inputs.
    pub fn new() -> (r: Network)
        ensures
            r@.layers == Seq::<Seq<NodeView>>::empty(),
            r@.inputs == Seq::<i64>::empty(),
            r@.catalog == Map::<usize, NodeSelectionDescriptor>::empty(),
            r.table_wf(),
    {
        Network::with_table(NodeSelectionTable::new())
    }

    /// An empty network with no inputs whose node types are those of `table`.
    pub fn with_table(table: NodeSelectionTable) -> (r: Network)
        ensures
            r@.layers == Seq::<Seq<NodeView>>::empty(),
            r@.inputs == Seq::<i64>::empty(),
            r@.catalog == table@,
            r.table_wf() == table.wf(),
    {
        let r = Network { layers: Vec::new(), inputs: Vec::new(), node_selection_table: table };
        assert(r@.layers =~= Seq::<Seq<NodeView>>::empty());
        r
    }

    /// Whether the network's catalog is well formed.
    pub closed spec fn table_wf(&self) -> bool {
        self.node_selection_table.wf()
    }

    /// The catalog of node types this network may use.
    pub fn node_selection_table(&self) -> (r: &NodeSelectionTable)
        ensures
            r@ == self@.catalog,
            r.wf() == self.table_wf(),
    {
        &self.node_selection_table
    }

    /// Replaces the catalog of node types this network may use.
    pub fn set_node_selection_table(&mut self, table: NodeSelectionTable)
        ensures
            final(self)@ == (NetworkView {
                layers: old(self)@.layers,
                inputs: old(self)@.inputs,
                catalog: table@,
            }),
            final(self).table_wf() == table.wf(),
    {
        self.node_selection_table = table;
    }

    /// The external input values.
    pub fn inputs(&self) -> (r: &Vec<i64>)
        ensures
            r@ == self@.inputs,
    {
        &self.inputs
    }

    /// Replaces the external input values.
    pub fn set_inputs(&mut self, inputs: Vec<i64>)
        ensures
            final(self)@ == (NetworkView {
                layers: old(self)@.layers,
                inputs: inputs@,
                catalog: old(self)@.catalog,
            }),
            final(self).table_wf() == old(self).table_wf(),
    {
        self.inputs = inputs;
    }

    /// The number of layers.
    pub fn layer_count(&self) -> (r: usize)
        ensures
            r == self@.layers.len(),
    {
        self.layers.len()
    }

    /// The number of nodes in layer `l`.
    pub fn node_count(&self, l: usize) -> (r: usize)
        requires
            l < self@.layers.len(),
        ensures
            r == self@.layers[l as int].len(),
    {
        self.layers[l].nodes.len()
    }

    /// Appends an empty layer and returns its index.
    pub fn generate_layer_to_network(&mut self) -> (r: usize)
        ensures
            r == old(self)@.layers.len(),
            final(self)@ == (NetworkView {
                layers: old(self)@.layers.push(Seq::empty()),
                inputs: old(self)@.inputs,
                catalog: old(self)@.catalog,
            }),
            final(self).table_wf() == old(self).table_wf(),
    {
        let r = self.layers.len();
        self.layers.push(Layer::new());
        assert(self@.layers =~= old(self)@.layers.push(Seq::empty()));
        r
    }

    /// Appends a node of type `node_type` with no connections and state 0 to layer
    /// `layer_index`, and returns its index within the layer. The type is not checked here.
    pub fn generate_node_to_layer(&mut self, node_type: usize, layer_index: usize) -> (r: Result<
        usize,
        Error,
    >)
        ensures
            final(self).table_wf() == old(self).table_wf(),
            match r {
                Ok(n) => {
                    &&& layer_index < old(self)@.layers.len()
                    &&& n == old(self)@.layers[layer_index as int].len()
                    &&& final(self)@ == with_node_added(
                        old(self)@,
                        layer_index as int,
                        NodeView { node_type_id: node_type, connections: Seq::empty(), state: 0 },
                    )
                },
                Err(e) => {
                    &&& e == Error::InvalidLayer
                    &&& layer_index >= old(self)@.layers.len()
                    &&& final(self)@ == old(self)@
                },
            },
    {
        if layer_index >= self.layers.len() {
            return Err(Error::InvalidLayer);
        }
        let n = self.layers[layer_index].nodes.len();
        self.layers[layer_index].nodes.push(Node::new(node_type));
        let ghost expected = with_node_added(
            old(self)@,
            layer_index as int,
            NodeView { node_type_id: node_type, connections: Seq::empty(), state: 0 },
        );
        assert(self@.layers[layer_index as int] =~= expected.layers[layer_index as int]);
        assert(self@.layers =~= expected.layers);
        Ok(n)
    }

    /// The layer at `layer_index`.
    pub fn get_layer(&self, layer_index: usize) -> (r: Result<&Layer, Error>)
        ensures
            match r {
                Ok(layer) => layer_index < self@.layers.len() && layer@ == self@.layers[
                    layer_index as int
                ],
                Err(e) => e == Error::InvalidLayer && layer_index >= self@.layers.len(),
            },
    {
        if layer_index >= self.layers.len() {
            return Err(Error::InvalidLayer);
        }
        Ok(&self.layers[layer_index])
    }

    /// The node at `node_index` within layer `layer_index`.
    pub fn get_node(&self, layer_index: usize, node_index: usize) -> (r: Result<&Node, Error>)
        ensures
            match r {
                Ok(node) => has_node(self@, layer_index as int, node_index as int) && node@
                    == self@.layers[layer_index as int][node_index as int],
                Err(e) => if layer_index >= self@.layers.len() {
                    e == Error::InvalidLayer
                } else {
                    e == Error::InvalidNode && node_index >= self@.layers[layer_index as int].len()
                },
            },
    {
        if layer_index >= self.layers.len() {
            return Err(Error::InvalidLayer);
        }
        if node_index >= self.layers[layer_index].nodes.len() {
            return Err(Error::InvalidNode);
        }
        Ok(&self.layers[layer_index].nodes[node_index])
    }

    /// Appends `c` to the ordered inputs of node `(layer_index, node_index)`. Where `c` points
    /// is not checked here.
    pub fn add_connection(&mut self, layer_index: usize, node_index: usize, c: Connection) -> (r:
        Result<(), Error>)
        ensures
            final(self).table_wf() == old(self).table_wf(),
            match r {
                Ok(()) => {
                    &&& has_node(old(self)@, layer_index as int, node_index as int)
                    &&& final(self)@ == with_connection_added(
                        old(self)@,
                        layer_index as int,
                        node_index as int,
                        c,
                    )
                },
                Err(e) => {
                    &&& final(self)@ == old(self)@
                    &&& if layer_index >= old(self)@.layers.len() {
                        e == Error::InvalidLayer
                    } else {
                        e == Error::InvalidNode && node_index >= old(self)@.layers[
                            layer_index as int
                        ].len()
                    }
                },
            },
    {
        if layer_index >= self.layers.len() {
            return Err(Error::InvalidLayer);
        }
        if node_index >= self.layers[layer_index].nodes.len() {
            return Err(Error::InvalidNode);
        }
        self.layers[layer_index].nodes[node_index].connections.push(c);
        let ghost expected = with_connection_added(
            old(self)@,
            layer_index as int,
            node_index as int,
            c,
        );
        assert(self@.layers[layer_index as int] =~= expected.layers[layer_index as int]);
        assert(self@.layers =~= expected.layers);
        Ok(())
    }

    /// The current value that `c` supplies, or `None` where it points nowhere.
    pub fn connection_value(&self, c: Connection) -> (r: Option<i64>)
        ensures
            r == resolve(self@, c),
    {
        match c {
            Connection::NodeReference { layer, node } => {
                if layer < self.layers.len() && node < self.layers[layer].nodes.len() {
                    Some(self.layers[layer].nodes[node].state)
                } else {
                    None
                }
            },
            Connection::ConstantReference(v) => Some(v),
            Connection::InputReference(i) => {
                if i < self.inputs.len() {
                    Some(self.inputs[i])
                } else {
                    None
                }
            },
        }
    }

    /// The ordered input values of node `(l, n)`, or `None` where one connection points nowhere.
    fn node_inputs(&self, l: usize, n: usize) -> (r: Option<Vec<i64>>)
        requires
            has_node(self@, l as int, n as int),
        ensures
            match r {
                Some(values) => {
                    &&& all_resolve(self@, self@.layers[l as int][n as int].connections)
                    &&& values@ == resolved(self@, self@.layers[l as int][n as int].connections)
                },
                None => !all_resolve(self@, self@.layers[l as int][n as int].connections),
            },
    {
        let ghost cs = self@.layers[l as int][n as int].connections;
        let connections = &self.layers[l].nodes[n].connections;
        assert(connections@ == cs);
        let mut values: Vec<i64> = Vec::new();
        let mut i: usize = 0;
        while i < connections.len()
            invariant
                i <= connections.len(),
                connections@ == cs,
                has_node(self@, l as int, n as int),
                cs == self@.layers[l as int][n as int].connections,
                values@.len() == i,
                forall|j: int| 0 <= j < i ==> (#[trigger] resolve(self@, cs[j])) is Some,
                forall|j: int| 0 <= j < i ==> values@[j] == (#[trigger] resolve(self@, cs[j])).unwrap(),
            decreases connections.len() - i,
        {
            match self.connection_value(connections[i]) {
                Some(v) => values.push(v),
                None => {
                    assert(resolve(self@, cs[i as int]) is None);
                    assert(!all_resolve(self@, cs));
                    return None;
                },
            }
            i = i + 1;
        }
        assert(values@ =~= resolved(self@, cs));
        Some(values)
    }

    /// Evaluates node `(layer_index, node_index)` on the current states and inputs, and stores
    /// its output as its state; without an output the state stays. The random operator uses
    /// `draw`.
    pub fn evaluate_node(&mut self, layer_index: usize, node_index: usize, draw: u64) -> (r: Result<
        Option<i64>,
        Error,
    >)
        ensures
            final(self).table_wf() == old(self).table_wf(),
            match r {
                Ok(out) => {
                    &&& has_node(old(self)@, layer_index as int, node_index as int)
                    &&& out == node_output(old(self)@, layer_index as int, node_index as int, draw)
                    &&& final(self)@ == step(old(self)@, layer_index as int, node_index as int, draw)
                },
                Err(e) => {
                    &&& final(self)@ == old(self)@
                    &&& if layer_index >= old(self)@.layers.len() {
                        e == Error::InvalidLayer
                    } else {
                        e == Error::InvalidNode && node_index >= old(self)@.layers[
                            layer_index as int
                        ].len()
                    }
                },
            },
    {
        if layer_index >= self.layers.len() {
            return Err(Error::InvalidLayer);
        }
        if node_index >= self.layers[layer_index].nodes.len() {
            return Err(Error::InvalidNode);
        }
        let node_type = self.layers[layer_index].nodes[node_index].node_type_id;
        if !self.node_selection_table.is_enabled(node_type) {
            return Ok(None);
        }
        let out = match self.node_inputs(layer_index, node_index) {
            Some(values) => run_node_drawn(node_type, &values, draw),
            None => None,
        };
        match out {
            Some(v) => {
                self.layers[layer_index].nodes[node_index].state = v;
                let ghost expected = with_state(
                    old(self)@,
                    layer_index as int,
                    node_index as int,
                    v,
                );
                assert(self@.layers[layer_index as int] =~= expected.layers[layer_index as int]);
                assert(self@.layers =~= expected.layers);
            },
            None => {},
        }
        Ok(out)
    }

    /// Evaluates every node, layer by layer in ascending order and node by node in ascending
    /// order within a layer; node `(l, n)` uses `draws[l][n]` (0 where there is none). A node
    /// reads the states as they stand when its turn comes.
    pub fn evaluate_with_draws(&mut self, draws: &Vec<Vec<u64>>)
        ensures
            final(self).table_wf() == old(self).table_wf(),
            final(self)@ == forward(old(self)@, draws_view(draws@)),
    {
        let ghost d = draws_view(draws@);
        let mut l: usize = 0;
        while l < self.layer_count()
            invariant
                d == draws_view(draws@),
                l <= old(self)@.layers.len(),
                self.table_wf() == old(self).table_wf(),
                same_shape(old(self)@, self@),
                self@ == after_layers(old(self)@, l as int, d),
            decreases old(self)@.layers.len() - l,
        {
            let ghost m = self@;
            let mut n: usize = 0;
            while n < self.node_count(l)
                invariant
                    d == draws_view(draws@),
                    l < old(self)@.layers.len(),
                    n <= m.layers[l as int].len(),
                    self.table_wf() == old(self).table_wf(),
                    same_shape(old(self)@, m),
                    same_shape(old(self)@, self@),
                    m == after_layers(old(self)@, l as int, d),
                    self@ == after_nodes(m, l as int, n as int, d),
                decreases m.layers[l as int].len() - n,
            {
                assert(old(self)@.layers[l as int].len() == m.layers[l as int].len());
                assert(old(self)@.layers[l as int].len() == self@.layers[l as int].len());
                let draw = draw_for(draws, l, n);
                let ghost before = self@;
                let _ = self.evaluate_node(l, n, draw);
                proof {
                    lemma_step_same_shape(before, l as int, n as int, draw);
                    lemma_same_shape_trans(old(self)@, before, self@);
                }
                n = n + 1;
            }
            assert(old(self)@.layers[l as int].len() == m.layers[l as int].len());
            assert(old(self)@.layers[l as int].len() == self@.layers[l as int].len());
            l = l + 1;
        }
    }

    /// Evaluates every node in ascending order as `evaluate_with_draws` does, with a fresh
    /// random value for each node. Only the random operator reads it.
    pub fn evaluate(&mut self)
        ensures
            final(self).table_wf() == old(self).table_wf(),
            exists|draws: Seq<Seq<u64>>| final(self)@ == forward(old(self)@, draws),
    {
        let mut draws: Vec<Vec<u64>> = Vec::new();
        let mut l: usize = 0;
        while l < self.layer_count()
            decreases self@.layers.len() - l,
        {
            let mut row: Vec<u64> = Vec::new();
            let mut n: usize = 0;
            while n < self.node_count(l)
                invariant
                    l < self@.layers.len(),
                decreases self@.layers[l as int].len() - n,
            {
                row.push(random_draw());
                n = n + 1;
            }
            draws.push(row);
            l = l + 1;
        }
        self.evaluate_with_draws(&draws);
    }
}

/// The draws of a nested vector, as nested sequences.
pub open spec fn draws_view(draws: Seq<Vec<u64>>) -> Seq<Seq<u64>> {
    draws.map_values(|row: Vec<u64>| row@)
}

/// The draw that `draws` holds for node `(l, n)`, 0 where it holds none.
pub open spec fn draw_at(draws: Seq<Seq<u64>>, l: int, n: int) -> u64 {
    if 0 <= l < draws.len() && 0 <= n < draws[l].len() {
        draws[l][n]
    } else {
        0
    }
}

fn draw_for(draws: &Vec<Vec<u64>>, l: usize, n: usize) -> (r: u64)
    ensures
        r == draw_at(draws_view(draws@), l as int, n as int),
{
    if l < draws.len() && n < draws[l].len() {
        draws[l][n]
    } else {
        0
    }
}

/// `net` after the first `k` nodes of layer `l` are evaluated in ascending order.
pub open spec fn after_nodes(net: NetworkView, l: int, k: int, draws: Seq<Seq<u64>>) -> NetworkView
    decreases k,
{
    if k <= 0 {
        net
    } else {
        step(after_nodes(net, l, k - 1, draws), l, k - 1, draw_at(draws, l, k - 1))
    }
}

/// `net` after its first `j` layers are evaluated in ascending order.
pub open spec fn after_layers(net: NetworkView, j: int, draws: Seq<Seq<u64>>) -> NetworkView
    decreases j,
{
    if j <= 0 {
        net
    } else {
        let m = after_layers(net, j - 1, draws);
        after_nodes(m, j - 1, m.layers[j - 1].len() as int, draws)
    }
}

/// `net` after one forward pass over all of its layers.
pub open spec fn forward(net: NetworkView, draws: Seq<Seq<u64>>) -> NetworkView {
    after_layers(net, net.layers.len() as int, draws)
}

/// `a` and `b` have the same layers, node counts, node types and connections, inputs and
/// catalog: at most the states differ.
pub open spec fn same_shape(a: NetworkView, b: NetworkView) -> bool {
    &&& a.layers.len() == b.layers.len()
    &&& forall|l: int| 0 <= l < a.layers.len() ==> #[trigger] a.layers[l].len() == b.layers[l].len()
    &&& forall|l: int, n: int|
        #![trigger a.layers[l][n]]
        has_node(a, l, n) ==> {
            &&& a.layers[l][n].node_type_id == b.layers[l][n].node_type_id
            &&& a.layers[l][n].connections == b.layers[l][n].connections
        }
    &&& a.inputs == b.inputs
    &&& a.catalog == b.catalog
}

/// Evaluating one node changes no more than states.
pub proof fn lemma_step_same_shape(net: NetworkView, l: int, n: int, draw: u64)
    requires
        has_node(net, l, n),
    ensures
        same_shape(net, step(net, l, n, draw)),
{
    let r = step(net, l, n, draw);
    assert forall|a: int, b: int| #![trigger net.layers[a][b]] has_node(net, a, b) implies {
        &&& net.layers[a][b].node_type_id == r.layers[a][b].node_type_id
        &&& net.layers[a][b].connections == r.layers[a][b].connections
    } by {
        if a == l {
        }
    }
}

proof fn lemma_same_shape_trans(a: NetworkView, b: NetworkView, c: NetworkView)
    requires
        same_shape(a, b),
        same_shape(b, c),
    ensures
        same_shape(a, c),
{
    assert forall|l: int| 0 <= l < a.layers.len() implies #[trigger] a.layers[l].len()
        == c.layers[l].len() by {
        assert(b.layers[l].len() == c.layers[l].len());
    }
    assert forall|l: int, n: int| #![trigger a.layers[l][n]] has_node(a, l, n) implies {
        &&& a.layers[l][n].node_type_id == c.layers[l][n].node_type_id
        &&& a.layers[l][n].connections == c.layers[l][n].connections
    } by {
        assert(b.layers[l].len() == a.layers[l].len());
        assert(has_node(b, l, n));
        let x = b.layers[l][n];
    }
}

/// No node of `net` is of the random type.
pub open spec fn no_random(net: NetworkView) -> bool {
    forall|l: int, n: int| #![trigger net.layers[l][n]] has_node(net, l, n) ==> net.layers[l][n].node_type_id != 401
}

proof fn lemma_no_random_kept(a: NetworkView, b: NetworkView)
    requires
        same_shape(a, b),
        no_random(a),
    ensures
        no_random(b),
{
    assert forall|l: int, n: int| #![trigger b.layers[l][n]] has_node(b, l, n) implies b.layers[l][n].node_type_id
        != 401 by {
        assert(a.layers[l].len() == b.layers[l].len());
        let x = a.layers[l][n];
    }
}

proof fn lemma_after_nodes_draw_free(
    net: NetworkView,
    l: int,
    k: int,
    d1: Seq<Seq<u64>>,
    d2: Seq<Seq<u64>>,
)
    requires
        no_random(net),
        0 <= l < net.layers.len(),
        0 <= k <= net.layers[l].len(),
    ensures
        after_nodes(net, l, k, d1) == after_nodes(net, l, k, d2),
        same_shape(net, after_nodes(net, l, k, d1)),
    decreases k,
{
    if k > 0 {
        lemma_after_nodes_draw_free(net, l, k - 1, d1, d2);
        let m = after_nodes(net, l, k - 1, d1);
        assert(net.layers[l].len() == m.layers[l].len());
        assert(has_node(m, l, k - 1));
        let x = net.layers[l][k - 1];
        let node = m.layers[l][k - 1];
        crate::engine::lemma_draw_read_by_random_only(
            node.node_type_id,
            resolved(m, node.connections),
            draw_at(d1, l, k - 1),
            draw_at(d2, l, k - 1),
        );
        lemma_step_same_shape(m, l, k - 1, draw_at(d1, l, k - 1));
        lemma_same_shape_trans(net, m, after_nodes(net, l, k, d1));
    }
}

proof fn lemma_after_layers_draw_free(
    net: NetworkView,
    j: int,
    d1: Seq<Seq<u64>>,
    d2: Seq<Seq<u64>>,
)
    requires
        no_random(net),
        0 <= j <= net.layers.len(),
    ensures
        after_layers(net, j, d1) == after_layers(net, j, d2),
        same_shape(net, after_layers(net, j, d1)),
    decreases j,
{
    if j > 0 {
        lemma_after_layers_draw_free(net, j - 1, d1, d2);
        let m = after_layers(net, j - 1, d1);
        lemma_no_random_kept(net, m);
        assert(net.layers[j - 1].len() == m.layers[j - 1].len());
        lemma_after_nodes_draw_free(m, j - 1, m.layers[j - 1].len() as int, d1, d2);
        lemma_same_shape_trans(net, m, after_layers(net, j, d1));
    }
}

/// A forward pass over a network without random nodes does not depend on the draws: two passes
/// over the same network with the same inputs give the same states.
pub proof fn lemma_forward_deterministic(net: NetworkView, d1: Seq<Seq<u64>>, d2: Seq<Seq<u64>>)
    requires
        no_random(net),
    ensures
        forward(net, d1) == forward(net, d2),
{
    lemma_after_layers_draw_free(net, net.layers.len() as int, d1, d2);
}

/// A random node's output, whatever was drawn, lies between its two input values.
pub proof fn lemma_random_node_within_bounds(net: NetworkView, l: int, n: int, draw: u64)
    requires
        has_node(net, l, n),
        net.layers[l][n].node_type_id == 401,
        node_output(net, l, n, draw) is Some,
    ensures
        ({
            let xs = resolved(net, net.layers[l][n].connections);
            let v = node_output(net, l, n, draw).unwrap();
            &&& xs.len() == 2
            &&& (if xs[0] <= xs[1] { xs[0] } else { xs[1] }) <= v
            &&& v <= (if xs[0] <= xs[1] { xs[1] } else { xs[0] })
        }),
{
    let xs = resolved(net, net.layers[l][n].connections);
    assert(crate::engine::arity_ok(401, xs.len()));
    assert(xs =~= seq![xs[0], xs[1]]);
    crate::engine::lemma_random_within_bounds(xs[0], xs[1], draw);
}

} // verus!
