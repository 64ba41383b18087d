use vstd::prelude::*;
use crate::Error;

verus! {

broadcast use vstd::std_specs::hash::group_hash_axioms;

/// Prevalence is a selection weight in millionths: this value stands for a weight of 1.
pub const FULL_PREVALENCE: u32 = 1000000;

/// One catalog entry: arity bounds, display text and selection weight of a node type.
#[derive(Debug, Clone, Copy)]
pub struct NodeSelectionDescriptor {
    pub minimum_connections: Option<usize>,
    pub maximum_connections: Option<usize>,
    pub description: &'static str,
    pub name: &'static str,
    pub prevalence: u32,
}

/// The groups of node types that can be enabled or disabled together.
#[derive(Debug, Clone, Copy, PartialEq, Eq, Structural)]
pub enum Category {
    Logic,
    SimpleArithmetic,
    AdvancedArithmetic,
    StringModification,
    Special,
}

/// The identifiers of a category form one contiguous range, bounds included.
pub open spec fn category_range(c: Category) -> (usize, usize) {
    match c {
        Category::Logic => (101, 117),
        Category::SimpleArithmetic => (201, 204),
        Category::AdvancedArithmetic => (205, 224),
        Category::StringModification => (301, 304),
        Category::Special => (401, 401),
    }
}

pub open spec fn in_category(c: Category, id: usize) -> bool {
    category_range(c).0 <= id <= category_range(c).1
}

/// Whether the two connection bounds of a descriptor, where both are present, are ordered.
pub open spec fn bounds_ordered(d: NodeSelectionDescriptor) -> bool {
    match (d.minimum_connections, d.maximum_connections) {
        (Some(lo), Some(hi)) => lo <= hi,
        _ => true,
    }
}

/// Whether `d` is the canonical descriptor of `id`, up to its prevalence.
pub open spec fn matches_canonical(id: usize, d: NodeSelectionDescriptor) -> bool {
    match canonical(id) {
        Some(c) => {
            &&& c.minimum_connections == d.minimum_connections
            &&& c.maximum_connections == d.maximum_connections
            &&& c.description == d.description
            &&& c.name == d.name
        },
        None => false,
    }
}

/// The canonical descriptor of every known node type.
pub open spec fn canonical(id: usize) -> Option<NodeSelectionDescriptor> {
    match id {
        101 => Some(NodeSelectionDescriptor {
            minimum_connections: Some(1),
            maximum_connections: None,
            description: "performs an AND comparison of all inputs, omits least input during comparison",
            name: "AND Gate",
            prevalence: FULL_PREVALENCE,
        }),
        102 => Some(NodeSelectionDescriptor {
            minimum_connections: Some(1),
            maximum_connections: None,
            description: "performs an OR comparison of all inputs, omits least and greatest input during comparison",
            name: "OR Gate",
            prevalence: FULL_PREVALENCE,
        }),
        103 => Some(NodeSelectionDescriptor {
            minimum_connections: Some(1),
            maximum_connections: None,
            description: "performs an NOR comparison of all inputs, omits least and greatest input during comparison",
            name: "NOR Gate",
            prevalence: FULL_PREVALENCE,
        }),
        104 => Some(NodeSelectionDescriptor {
            minimum_connections: Some(1),
            maximum_connections: Some(1),
            description: "performs a NOT operation on one input, returns inverse of number to follow mapped truth value",
            name: "NOT Gate",
            prevalence: FULL_PREVALENCE,
        }),
        105 => Some(NodeSelectionDescriptor {
            minimum_connections: Some(1),
            maximum_connections: None,
            description: "Performs a NAND comparison of all inputs",
            name: "NAND Gate",
            prevalence: FULL_PREVALENCE,
        }),
        106 => Some(NodeSelectionDescriptor {
            minimum_connections: Some(1),
            maximum_connections: None,
            description: "Performs an XOR comparison of all inputs",
            name: "XOR Gate",
            prevalence: FULL_PREVALENCE,
        }),
        107 => Some(NodeSelectionDescriptor {
            minimum_connections: Some(1),
            maximum_connections: None,
            description: "tests if all inputs are equal, returns the greatest input if true, and the least input if false",
            name: "Equality Test",
            prevalence: FULL_PREVALENCE,
        }),
        108 => Some(NodeSelectionDescriptor {
            minimum_connections: Some(3),
            maximum_connections: Some(3),
            description: "tests if first and second inputs are equal, returns the 3rd input if true, and 0 if false",
            name: "Equality Test",
            prevalence: FULL_PREVALENCE,
        }),
        109 => Some(NodeSelectionDescriptor {
            minimum_connections: Some(2),
            maximum_connections: Some(2),
            description: "tests if first value is greater than second value, returns mapped truth value",
            name: "Greater Than",
            prevalence: FULL_PREVALENCE,
        }),
        110 => Some(NodeSelectionDescriptor {
            minimum_connections: Some(3),
            maximum_connections: Some(3),
            description: "If the first input is greater than the second input, the 3rd input is returned",
            name: "Greater Than Gate",
            prevalence: FULL_PREVALENCE,
        }),
        111 => Some(NodeSelectionDescriptor {
            minimum_connections: Some(2),
            maximum_connections: Some(2),
            description: "tests if first value is less than second value, returns mapped truth value",
            name: "Less Than",
            prevalence: FULL_PREVALENCE,
        }),
        112 => Some(NodeSelectionDescriptor {
            minimum_connections: Some(3),
            maximum_connections: Some(3),
            description: "tests if first value is less than second value, returns 3rd value if true, returns 0 if false",
            name: "Less Than Gate",
            prevalence: FULL_PREVALENCE,
        }),
        113 => Some(NodeSelectionDescriptor {
            minimum_connections: Some(1),
            maximum_connections: Some(1),
            description: "Passes the input value to the output value",
            name: "Passthrough",
            prevalence: FULL_PREVALENCE,
        }),
        114 => Some(NodeSelectionDescriptor {
            minimum_connections: Some(2),
            maximum_connections: Some(2),
            description: "tests if first value is greater than or equal to second value, returns mapped truth value",
            name: "Greater Than or Equal to",
            prevalence: FULL_PREVALENCE,
        }),
        115 => Some(NodeSelectionDescriptor {
            minimum_connections: Some(3),
            maximum_connections: Some(3),
            description: "Tests if first value is greater than or equal to second value, returns 3rd value if true, returns 0 if False",
            name: "Greater Than or Equal to Gate",
            prevalence: FULL_PREVALENCE,
        }),
        116 => Some(NodeSelectionDescriptor {
            minimum_connections: Some(2),
            maximum_connections: Some(2),
            description: "tests if first value is less than or equal to second value, returns mapped truth value",
            name: "Less Than Or Equal to",
            prevalence: FULL_PREVALENCE,
        }),
        117 => Some(NodeSelectionDescriptor {
            minimum_connections: Some(3),
            maximum_connections: Some(3),
            description: "tests if first value is less than or equal to second value, returns 3rd value if true, returns 0 if false",
            name: "Less Than or Equal to Gate",
            prevalence: FULL_PREVALENCE,
        }),
        201 => Some(NodeSelectionDescriptor {
            minimum_connections: Some(1),
            maximum_connections: None,
            description: "Adds all given numbers together",
            name: "Add",
            prevalence: FULL_PREVALENCE,
        }),
        202 => Some(NodeSelectionDescriptor {
            minimum_connections: Some(1),
            maximum_connections: None,
            description: "Subtracts all numbers from the first number",
            name: "Subtract",
            prevalence: FULL_PREVALENCE,
        }),
        203 => Some(NodeSelectionDescriptor {
            minimum_connections: Some(1),
            maximum_connections: None,
            description: "Multiplies all numbers",
            name: "Multiply",
            prevalence: FULL_PREVALENCE,
        }),
        204 => Some(NodeSelectionDescriptor {
            minimum_connections: Some(1),
            maximum_connections: None,
            description: "Divides all numbers from the first number",
            name: "Divide",
            prevalence: FULL_PREVALENCE,
        }),
        205 => Some(NodeSelectionDescriptor {
            minimum_connections: Some(2),
            maximum_connections: Some(2),
            description: "Takes the n root of the first input, n being the second input",
            name: "Root",
            prevalence: FULL_PREVALENCE,
        }),
        206 => Some(NodeSelectionDescriptor {
            minimum_connections: Some(2),
            maximum_connections: Some(2),
            description: "Calculates the first input to the second inputs power",
            name: "Exponent",
            prevalence: FULL_PREVALENCE,
        }),
        207 => Some(NodeSelectionDescriptor {
            minimum_connections: Some(1),
            maximum_connections: Some(1),
            description: "Calculates the sine of the first input",
            name: "Sin",
            prevalence: FULL_PREVALENCE,
        }),
        208 => Some(NodeSelectionDescriptor {
            minimum_connections: Some(1),
            maximum_connections: Some(1),
            description: "Calculates the cosine of the first input",
            name: "Cos",
            prevalence: FULL_PREVALENCE,
        }),
        209 => Some(NodeSelectionDescriptor {
            minimum_connections: Some(1),
            maximum_connections: Some(1),
            description: "Calculates the tangent of the first input",
            name: "Tan",
            prevalence: FULL_PREVALENCE,
        }),
        210 => Some(NodeSelectionDescriptor {
            minimum_connections: Some(1),
            maximum_connections: Some(1),
            description: "Calculates the inverse sine of the first input",
            name: "Arcsin",
            prevalence: FULL_PREVALENCE,
        }),
        211 => Some(NodeSelectionDescriptor {
            minimum_connections: Some(1),
            maximum_connections: Some(1),
            description: "Calculates the inverse cosine of the first input",
            name: "Arccos",
            prevalence: FULL_PREVALENCE,
        }),
        212 => Some(NodeSelectionDescriptor {
            minimum_connections: Some(1),
            maximum_connections: Some(1),
            description: "Calculates the inverse tangent of the first input",
            name: "Arctan",
            prevalence: FULL_PREVALENCE,
        }),
        213 => Some(NodeSelectionDescriptor {
            minimum_connections: Some(1),
            maximum_connections: Some(1),
            description: "Returns the absolute value of the first input",
            name: "Abs",
            prevalence: FULL_PREVALENCE,
        }),
        214 => Some(NodeSelectionDescriptor {
            minimum_connections: Some(1),
            maximum_connections: Some(1),
            description: "Returns the rounded ceiling of the first input",
            name: "Ceiling",
            prevalence: FULL_PREVALENCE,
        }),
        215 => Some(NodeSelectionDescriptor {
            minimum_connections: Some(1),
            maximum_connections: Some(1),
            description: "Returns the rounded floor of the first input",
            name: "Floor",
            prevalence: FULL_PREVALENCE,
        }),
        216 => Some(NodeSelectionDescriptor {
            minimum_connections: Some(1),
            maximum_connections: Some(1),
            description: "Returns the rounded first input",
            name: "Round",
            prevalence: FULL_PREVALENCE,
        }),
        217 => Some(NodeSelectionDescriptor {
            minimum_connections: Some(1),
            maximum_connections: Some(1),
            description: "Returns the inverted first input",
            name: "Invert sign",
            prevalence: FULL_PREVALENCE,
        }),
        218 => Some(NodeSelectionDescriptor {
            minimum_connections: Some(2),
            maximum_connections: Some(2),
            description: "Limits the first input to be no greater than the second input",
            name: "Maximum Limiter",
            prevalence: FULL_PREVALENCE,
        }),
        219 => Some(NodeSelectionDescriptor {
            minimum_connections: Some(2),
            maximum_connections: Some(2),
            description: "Limits the first input to be no less than the second input",
            name: "Minimum Limiter",
            prevalence: FULL_PREVALENCE,
        }),
        220 => Some(NodeSelectionDescriptor {
            minimum_connections: Some(2),
            maximum_connections: Some(2),
            description: "Returns the modulus of the first and second input",
            name: "Modulus",
            prevalence: FULL_PREVALENCE,
        }),
        221 => Some(NodeSelectionDescriptor {
            minimum_connections: Some(1),
            maximum_connections: Some(1),
            description: "Returns the inverse absolute value of the first input",
            name: "Make Negative",
            prevalence: FULL_PREVALENCE,
        }),
        222 => Some(NodeSelectionDescriptor {
            minimum_connections: Some(1),
            maximum_connections: Some(1),
            description: "Returns the cosecant of the first input",
            name: "Cosecant",
            prevalence: FULL_PREVALENCE,
        }),
        223 => Some(NodeSelectionDescriptor {
            minimum_connections: Some(1),
            maximum_connections: Some(1),
            description: "Returns the secant of the first input",
            name: "Secant",
            prevalence: FULL_PREVALENCE,
        }),
        224 => Some(NodeSelectionDescriptor {
            minimum_connections: Some(1),
            maximum_connections: Some(1),
            description: "Returns the cotangent of the first input",
            name: "Cotangent",
            prevalence: FULL_PREVALENCE,
        }),
        301 => Some(NodeSelectionDescriptor {
            minimum_connections: Some(2),
            maximum_connections: Some(2),
            description: "Removes instances of second value from first value",
            name: "String Remove",
            prevalence: FULL_PREVALENCE,
        }),
        302 => Some(NodeSelectionDescriptor {
            minimum_connections: Some(3),
            maximum_connections: Some(3),
            description: "Replace instances of 2nd value from first value with 3rd value",
            name: "String Replace",
            prevalence: FULL_PREVALENCE,
        }),
        303 => Some(NodeSelectionDescriptor {
            minimum_connections: Some(2),
            maximum_connections: Some(2),
            description: "Count amount of instances of 2nd Value inside 1st value",
            name: "String Count",
            prevalence: FULL_PREVALENCE,
        }),
        304 => Some(NodeSelectionDescriptor {
            minimum_connections: Some(1),
            maximum_connections: None,
            description: "Concatenate all inputs",
            name: "Concatenate",
            prevalence: FULL_PREVALENCE,
        }),
        401 => Some(NodeSelectionDescriptor {
            minimum_connections: Some(2),
            maximum_connections: Some(2),
            description: "Generate a random integer between two values",
            name: "Random Number",
            prevalence: FULL_PREVALENCE,
        }),
        _ => None,
    }
}

/// Returns the canonical descriptor of `id`, or `None` for an unknown identifier.
pub fn canonical_descriptor(id: usize) -> (r: Option<NodeSelectionDescriptor>)
    ensures
        r == canonical(id),
{
    match id {
        101 => Some(NodeSelectionDescriptor {
            minimum_connections: Some(1),
            maximum_connections: None,
            description: "performs an AND comparison of all inputs, omits least input during comparison",
            name: "AND Gate",
            prevalence: FULL_PREVALENCE,
        }),
        102 => Some(NodeSelectionDescriptor {
            minimum_connections: Some(1),
            maximum_connections: None,
            description: "performs an OR comparison of all inputs, omits least and greatest input during comparison",
            name: "OR Gate",
            prevalence: FULL_PREVALENCE,
        }),
        103 => Some(NodeSelectionDescriptor {
            minimum_connections: Some(1),
            maximum_connections: None,
            description: "performs an NOR comparison of all inputs, omits least and greatest input during comparison",
            name: "NOR Gate",
            prevalence: FULL_PREVALENCE,
        }),
        104 => Some(NodeSelectionDescriptor {
            minimum_connections: Some(1),
            maximum_connections: Some(1),
            description: "performs a NOT operation on one input, returns inverse of number to follow mapped truth value",
            name: "NOT Gate",
            prevalence: FULL_PREVALENCE,
        }),
        105 => Some(NodeSelectionDescriptor {
            minimum_connections: Some(1),
            maximum_connections: None,
            description: "Performs a NAND comparison of all inputs",
            name: "NAND Gate",
            prevalence: FULL_PREVALENCE,
        }),
        106 => Some(NodeSelectionDescriptor {
            minimum_connections: Some(1),
            maximum_connections: None,
            description: "Performs an XOR comparison of all inputs",
            name: "XOR Gate",
            prevalence: FULL_PREVALENCE,
        }),
        107 => Some(NodeSelectionDescriptor {
            minimum_connections: Some(1),
            maximum_connections: None,
            description: "tests if all inputs are equal, returns the greatest input if true, and the least input if false",
            name: "Equality Test",
            prevalence: FULL_PREVALENCE,
        }),
        108 => Some(NodeSelectionDescriptor {
            minimum_connections: Some(3),
            maximum_connections: Some(3),
            description: "tests if first and second inputs are equal, returns the 3rd input if true, and 0 if false",
            name: "Equality Test",
            prevalence: FULL_PREVALENCE,
        }),
        109 => Some(NodeSelectionDescriptor {
            minimum_connections: Some(2),
            maximum_connections: Some(2),
            description: "tests if first value is greater than second value, returns mapped truth value",
            name: "Greater Than",
            prevalence: FULL_PREVALENCE,
        }),
        110 => Some(NodeSelectionDescriptor {
            minimum_connections: Some(3),
            maximum_connections: Some(3),
            description: "If the first input is greater than the second input, the 3rd input is returned",
            name: "Greater Than Gate",
            prevalence: FULL_PREVALENCE,
        }),
        111 => Some(NodeSelectionDescriptor {
            minimum_connections: Some(2),
            maximum_connections: Some(2),
            description: "tests if first value is less than second value, returns mapped truth value",
            name: "Less Than",
            prevalence: FULL_PREVALENCE,
        }),
        112 => Some(NodeSelectionDescriptor {
            minimum_connections: Some(3),
            maximum_connections: Some(3),
            description: "tests if first value is less than second value, returns 3rd value if true, returns 0 if false",
            name: "Less Than Gate",
            prevalence: FULL_PREVALENCE,
        }),
        113 => Some(NodeSelectionDescriptor {
            minimum_connections: Some(1),
            maximum_connections: Some(1),
            description: "Passes the input value to the output value",
            name: "Passthrough",
            prevalence: FULL_PREVALENCE,
        }),
        114 => Some(NodeSelectionDescriptor {
            minimum_connections: Some(2),
            maximum_connections: Some(2),
            description: "tests if first value is greater than or equal to second value, returns mapped truth value",
            name: "Greater Than or Equal to",
            prevalence: FULL_PREVALENCE,
        }),
        115 => Some(NodeSelectionDescriptor {
            minimum_connections: Some(3),
            maximum_connections: Some(3),
            description: "Tests if first value is greater than or equal to second value, returns 3rd value if true, returns 0 if False",
            name: "Greater Than or Equal to Gate",
            prevalence: FULL_PREVALENCE,
        }),
        116 => Some(NodeSelectionDescriptor {
            minimum_connections: Some(2),
            maximum_connections: Some(2),
            description: "tests if first value is less than or equal to second value, returns mapped truth value",
            name: "Less Than Or Equal to",
            prevalence: FULL_PREVALENCE,
        }),
        117 => Some(NodeSelectionDescriptor {
            minimum_connections: Some(3),
            maximum_connections: Some(3),
            description: "tests if first value is less than or equal to second value, returns 3rd value if true, returns 0 if false",
            name: "Less Than or Equal to Gate",
            prevalence: FULL_PREVALENCE,
        }),
        201 => Some(NodeSelectionDescriptor {
            minimum_connections: Some(1),
            maximum_connections: None,
            description: "Adds all given numbers together",
            name: "Add",
            prevalence: FULL_PREVALENCE,
        }),
        202 => Some(NodeSelectionDescriptor {
            minimum_connections: Some(1),
            maximum_connections: None,
            description: "Subtracts all numbers from the first number",
            name: "Subtract",
            prevalence: FULL_PREVALENCE,
        }),
        203 => Some(NodeSelectionDescriptor {
            minimum_connections: Some(1),
            maximum_connections: None,
            description: "Multiplies all numbers",
            name: "Multiply",
            prevalence: FULL_PREVALENCE,
        }),
        204 => Some(NodeSelectionDescriptor {
            minimum_connections: Some(1),
            maximum_connections: None,
            description: "Divides all numbers from the first number",
            name: "Divide",
            prevalence: FULL_PREVALENCE,
        }),
        205 => Some(NodeSelectionDescriptor {
            minimum_connections: Some(2),
            maximum_connections: Some(2),
            description: "Takes the n root of the first input, n being the second input",
            name: "Root",
            prevalence: FULL_PREVALENCE,
        }),
        206 => Some(NodeSelectionDescriptor {
            minimum_connections: Some(2),
            maximum_connections: Some(2),
            description: "Calculates the first input to the second inputs power",
            name: "Exponent",
            prevalence: FULL_PREVALENCE,
        }),
        207 => Some(NodeSelectionDescriptor {
            minimum_connections: Some(1),
            maximum_connections: Some(1),
            description: "Calculates the sine of the first input",
            name: "Sin",
            prevalence: FULL_PREVALENCE,
        }),
        208 => Some(NodeSelectionDescriptor {
            minimum_connections: Some(1),
            maximum_connections: Some(1),
            description: "Calculates the cosine of the first input",
            name: "Cos",
            prevalence: FULL_PREVALENCE,
        }),
        209 => Some(NodeSelectionDescriptor {
            minimum_connections: Some(1),
            maximum_connections: Some(1),
            description: "Calculates the tangent of the first input",
            name: "Tan",
            prevalence: FULL_PREVALENCE,
        }),
        210 => Some(NodeSelectionDescriptor {
            minimum_connections: Some(1),
            maximum_connections: Some(1),
            description: "Calculates the inverse sine of the first input",
            name: "Arcsin",
            prevalence: FULL_PREVALENCE,
        }),
        211 => Some(NodeSelectionDescriptor {
            minimum_connections: Some(1),
            maximum_connections: Some(1),
            description: "Calculates the inverse cosine of the first input",
            name: "Arccos",
            prevalence: FULL_PREVALENCE,
        }),
        212 => Some(NodeSelectionDescriptor {
            minimum_connections: Some(1),
            maximum_connections: Some(1),
            description: "Calculates the inverse tangent of the first input",
            name: "Arctan",
            prevalence: FULL_PREVALENCE,
        }),
        213 => Some(NodeSelectionDescriptor {
            minimum_connections: Some(1),
            maximum_connections: Some(1),
            description: "Returns the absolute value of the first input",
            name: "Abs",
            prevalence: FULL_PREVALENCE,
        }),
        214 => Some(NodeSelectionDescriptor {
            minimum_connections: Some(1),
            maximum_connections: Some(1),
            description: "Returns the rounded ceiling of the first input",
            name: "Ceiling",
            prevalence: FULL_PREVALENCE,
        }),
        215 => Some(NodeSelectionDescriptor {
            minimum_connections: Some(1),
            maximum_connections: Some(1),
            description: "Returns the rounded floor of the first input",
            name: "Floor",
            prevalence: FULL_PREVALENCE,
        }),
        216 => Some(NodeSelectionDescriptor {
            minimum_connections: Some(1),
            maximum_connections: Some(1),
            description: "Returns the rounded first input",
            name: "Round",
            prevalence: FULL_PREVALENCE,
        }),
        217 => Some(NodeSelectionDescriptor {
            minimum_connections: Some(1),
            maximum_connections: Some(1),
            description: "Returns the inverted first input",
            name: "Invert sign",
            prevalence: FULL_PREVALENCE,
        }),
        218 => Some(NodeSelectionDescriptor {
            minimum_connections: Some(2),
            maximum_connections: Some(2),
            description: "Limits the first input to be no greater than the second input",
            name: "Maximum Limiter",
            prevalence: FULL_PREVALENCE,
        }),
        219 => Some(NodeSelectionDescriptor {
            minimum_connections: Some(2),
            maximum_connections: Some(2),
            description: "Limits the first input to be no less than the second input",
            name: "Minimum Limiter",
            prevalence: FULL_PREVALENCE,
        }),
        220 => Some(NodeSelectionDescriptor {
            minimum_connections: Some(2),
            maximum_connections: Some(2),
            description: "Returns the modulus of the first and second input",
            name: "Modulus",
            prevalence: FULL_PREVALENCE,
        }),
        221 => Some(NodeSelectionDescriptor {
            minimum_connections: Some(1),
            maximum_connections: Some(1),
            description: "Returns the inverse absolute value of the first input",
            name: "Make Negative",
            prevalence: FULL_PREVALENCE,
        }),
        222 => Some(NodeSelectionDescriptor {
            minimum_connections: Some(1),
            maximum_connections: Some(1),
            description: "Returns the cosecant of the first input",
            name: "Cosecant",
            prevalence: FULL_PREVALENCE,
        }),
        223 => Some(NodeSelectionDescriptor {
            minimum_connections: Some(1),
            maximum_connections: Some(1),
            description: "Returns the secant of the first input",
            name: "Secant",
            prevalence: FULL_PREVALENCE,
        }),
        224 => Some(NodeSelectionDescriptor {
            minimum_connections: Some(1),
            maximum_connections: Some(1),
            description: "Returns the cotangent of the first input",
            name: "Cotangent",
            prevalence: FULL_PREVALENCE,
        }),
        301 => Some(NodeSelectionDescriptor {
            minimum_connections: Some(2),
            maximum_connections: Some(2),
            description: "Removes instances of second value from first value",
            name: "String Remove",
            prevalence: FULL_PREVALENCE,
        }),
        302 => Some(NodeSelectionDescriptor {
            minimum_connections: Some(3),
            maximum_connections: Some(3),
            description: "Replace instances of 2nd value from first value with 3rd value",
            name: "String Replace",
            prevalence: FULL_PREVALENCE,
        }),
        303 => Some(NodeSelectionDescriptor {
            minimum_connections: Some(2),
            maximum_connections: Some(2),
            description: "Count amount of instances of 2nd Value inside 1st value",
            name: "String Count",
            prevalence: FULL_PREVALENCE,
        }),
        304 => Some(NodeSelectionDescriptor {
            minimum_connections: Some(1),
            maximum_connections: None,
            description: "Concatenate all inputs",
            name: "Concatenate",
            prevalence: FULL_PREVALENCE,
        }),
        401 => Some(NodeSelectionDescriptor {
            minimum_connections: Some(2),
            maximum_connections: Some(2),
            description: "Generate a random integer between two values",
            name: "Random Number",
            prevalence: FULL_PREVALENCE,
        }),
        _ => None,
    }
}

/// Returns the first and last identifier of a category.
pub fn category_bounds(c: Category) -> (r: (usize, usize))
    ensures
        r == category_range(c),
{
    match c {
        Category::Logic => (101, 117),
        Category::SimpleArithmetic => (201, 204),
        Category::AdvancedArithmetic => (205, 224),
        Category::StringModification => (301, 304),
        Category::Special => (401, 401),
    }
}

/// The catalog `m` after the canonical entries of category `c` are written into it.
pub open spec fn with_category(
    m: Map<usize, NodeSelectionDescriptor>,
    c: Category,
) -> Map<usize, NodeSelectionDescriptor> {
    Map::new(
        |id: usize| m.contains_key(id) || in_category(c, id),
        |id: usize|
            if in_category(c, id) {
                canonical(id).unwrap()
            } else {
                m[id]
            },
    )
}

/// The catalog `m` after every entry of category `c` is taken out of it.
pub open spec fn without_category(
    m: Map<usize, NodeSelectionDescriptor>,
    c: Category,
) -> Map<usize, NodeSelectionDescriptor> {
    m.restrict(m.dom().filter(|id: usize| !in_category(c, id)))
}

/// The live selection table: which node types a network may use, and with what weight.
#[derive(Debug)]
pub struct NodeSelectionTable {
    node_type_mapping_descriptors: std::collections::HashMap<usize, NodeSelectionDescriptor>,
}

impl View for NodeSelectionTable {
    type V = Map<usize, NodeSelectionDescriptor>;

    closed spec fn view(&self) -> Map<usize, NodeSelectionDescriptor> {
        self.node_type_mapping_descriptors@
    }
}

impl NodeSelectionTable {
    /// Every entry is the canonical descriptor of its identifier, up to its prevalence.
    pub open spec fn wf(&self) -> bool {
        forall|id: usize| #[trigger] self@.contains_key(id) ==> matches_canonical(id, self@[id])
    }

    /// An empty table.
    pub fn new() -> (r: NodeSelectionTable)
        ensures
            r.wf(),
            r@ == Map::<usize, NodeSelectionDescriptor>::empty(),
    {
        NodeSelectionTable { node_type_mapping_descriptors: std::collections::HashMap::new() }
    }

    /// Writes the canonical descriptors of category `c`, overwriting entries already there.
    pub fn enable_category(&mut self, c: Category)
        requires
            old(self).wf(),
        ensures
            final(self).wf(),
            final(self)@ == with_category(old(self)@, c),
    {
        let (lo, hi) = category_bounds(c);
        let mut id: usize = lo;
        while id <= hi
            invariant
                (lo, hi) == category_range(c),
                lo <= id <= hi + 1,
                self.wf(),
                forall|k: usize| #[trigger]
                    self@.contains_key(k) <==> (old(self)@.contains_key(k) || (lo <= k < id)),
                forall|k: usize| #[trigger]
                    self@.contains_key(k) ==> self@[k] == if lo <= k < id {
                        canonical(k).unwrap()
                    } else {
                        old(self)@[k]
                    },
            decreases hi + 1 - id,
        {
            let d = canonical_descriptor(id);
            proof {
                assert(d is Some) by {
                    assert(in_category(c, id));
                }
            }
            let ghost before = self@;
            self.node_type_mapping_descriptors.insert(id, d.unwrap());
            assert(self@ == before.insert(id, d.unwrap()));
            id = id + 1;
        }
        assert(self@ =~= with_category(old(self)@, c));
    }

    /// Takes out every entry of category `c`; entries of other categories stay as they are.
    pub fn disable_category(&mut self, c: Category)
        requires
            old(self).wf(),
        ensures
            final(self).wf(),
            final(self)@ == without_category(old(self)@, c),
    {
        let (lo, hi) = category_bounds(c);
        let mut id: usize = lo;
        while id <= hi
            invariant
                (lo, hi) == category_range(c),
                lo <= id <= hi + 1,
                self.wf(),
                forall|k: usize| #[trigger]
                    self@.contains_key(k) <==> (old(self)@.contains_key(k) && !(lo <= k < id)),
                forall|k: usize| #[trigger] self@.contains_key(k) ==> self@[k] == old(self)@[k],
            decreases hi + 1 - id,
        {
            let ghost before = self@;
            self.node_type_mapping_descriptors.remove(&id);
            assert(self@ == before.remove(id));
            id = id + 1;
        }
        assert(self@ =~= without_category(old(self)@, c));
    }

    /// Writes the canonical descriptors of every category.
    pub fn enable_all(&mut self)
        requires
            old(self).wf(),
        ensures
            final(self).wf(),
            final(self)@ == with_all(old(self)@),
    {
        self.enable_logic();
        self.enable_simple_arithmetic();
        self.enable_advanced_arithmetic();
        self.enable_string_modification();
        self.enable_special_functions();
        proof {
            lemma_known_ids();
        }
        assert(self@ =~= with_all(old(self)@));
    }

    /// Takes out the entries of every category.
    pub fn disable_all(&mut self)
        requires
            old(self).wf(),
        ensures
            final(self).wf(),
            final(self)@ == Map::<usize, NodeSelectionDescriptor>::empty(),
    {
        self.disable_logic();
        self.disable_simple_arithmetic();
        self.disable_advanced_arithmetic();
        self.disable_string_modification();
        self.disable_special_functions();
        proof {
            lemma_known_ids();
        }
        assert(self@ =~= Map::<usize, NodeSelectionDescriptor>::empty());
    }

    pub fn enable_logic(&mut self)
        requires
            old(self).wf(),
        ensures
            final(self).wf(),
            final(self)@ == with_category(old(self)@, Category::Logic),
    {
        self.enable_category(Category::Logic);
    }

    pub fn disable_logic(&mut self)
        requires
            old(self).wf(),
        ensures
            final(self).wf(),
            final(self)@ == without_category(old(self)@, Category::Logic),
    {
        self.disable_category(Category::Logic);
    }

    pub fn enable_simple_arithmetic(&mut self)
        requires
            old(self).wf(),
        ensures
            final(self).wf(),
            final(self)@ == with_category(old(self)@, Category::SimpleArithmetic),
    {
        self.enable_category(Category::SimpleArithmetic);
    }

    pub fn disable_simple_arithmetic(&mut self)
        requires
            old(self).wf(),
        ensures
            final(self).wf(),
            final(self)@ == without_category(old(self)@, Category::SimpleArithmetic),
    {
        self.disable_category(Category::SimpleArithmetic);
    }

    pub fn enable_advanced_arithmetic(&mut self)
        requires
            old(self).wf(),
        ensures
            final(self).wf(),
            final(self)@ == with_category(old(self)@, Category::AdvancedArithmetic),
    {
        self.enable_category(Category::AdvancedArithmetic);
    }

    pub fn disable_advanced_arithmetic(&mut self)
        requires
            old(self).wf(),
        ensures
            final(self).wf(),
            final(self)@ == without_category(old(self)@, Category::AdvancedArithmetic),
    {
        self.disable_category(Category::AdvancedArithmetic);
    }

    pub fn enable_string_modification(&mut self)
        requires
            old(self).wf(),
        ensures
            final(self).wf(),
            final(self)@ == with_category(old(self)@, Category::StringModification),
    {
        self.enable_category(Category::StringModification);
    }

    pub fn disable_string_modification(&mut self)
        requires
            old(self).wf(),
        ensures
            final(self).wf(),
            final(self)@ == without_category(old(self)@, Category::StringModification),
    {
        self.disable_category(Category::StringModification);
    }

    pub fn enable_special_functions(&mut self)
        requires
            old(self).wf(),
        ensures
            final(self).wf(),
            final(self)@ == with_category(old(self)@, Category::Special),
    {
        self.enable_category(Category::Special);
    }

    pub fn disable_special_functions(&mut self)
        requires
            old(self).wf(),
        ensures
            final(self).wf(),
            final(self)@ == without_category(old(self)@, Category::Special),
    {
        self.disable_category(Category::Special);
    }

    /// Copies the canonical descriptor of `id` into the table.
    pub fn enable_by_id(&mut self, id: usize)
        requires
            old(self).wf(),
            canonical(id) is Some,
        ensures
            final(self).wf(),
            final(self)@ == old(self)@.insert(id, canonical(id).unwrap()),
    {
        let d = canonical_descriptor(id);
        self.node_type_mapping_descriptors.insert(id, d.unwrap());
        assert(self@ == old(self)@.insert(id, canonical(id).unwrap()));
    }

    /// Takes out the entry of `id`; an absent `id` leaves the table as it is.
    pub fn disable_by_id(&mut self, id: usize)
        requires
            old(self).wf(),
        ensures
            final(self).wf(),
            final(self)@ == old(self)@.remove(id),
    {
        self.node_type_mapping_descriptors.remove(&id);
    }

    /// The entry of `id`, if it is enabled.
    pub fn get_descriptor(&self, id: usize) -> (r: Option<NodeSelectionDescriptor>)
        ensures
            r == (if self@.contains_key(id) {
                Some(self@[id])
            } else {
                None
            }),
    {
        match self.node_type_mapping_descriptors.get(&id) {
            Some(d) => Some(*d),
            None => None,
        }
    }

    /// The number of enabled node types.
    pub fn len(&self) -> (r: usize)
        ensures
            r == self@.len(),
    {
        self.node_type_mapping_descriptors.len()
    }

    /// Whether `id` is currently enabled.
    pub fn is_enabled(&self, id: usize) -> (r: bool)
        ensures
            r == self@.contains_key(id),
    {
        self.node_type_mapping_descriptors.contains_key(&id)
    }

    /// Sets the prevalence of an enabled node type; the weight is stored as given.
    pub fn set_prevalence_by_id(&mut self, id: usize, prevalence: u32) -> (r: Result<(), Error>)
        requires
            old(self).wf(),
        ensures
            final(self).wf(),
            match r {
                Ok(()) => {
                    &&& old(self)@.contains_key(id)
                    &&& final(self)@ == old(self)@.insert(
                        id,
                        with_prevalence(old(self)@[id], prevalence),
                    )
                },
                Err(e) => {
                    &&& e == Error::PrevalenceConfigure
                    &&& !old(self)@.contains_key(id)
                    &&& final(self)@ == old(self)@
                },
            },
    {
        match self.node_type_mapping_descriptors.get(&id) {
            Some(d) => {
                let updated = NodeSelectionDescriptor {
                    minimum_connections: d.minimum_connections,
                    maximum_connections: d.maximum_connections,
                    description: d.description,
                    name: d.name,
                    prevalence,
                };
                self.node_type_mapping_descriptors.insert(id, updated);
                Ok(())
            },
            None => Err(Error::PrevalenceConfigure),
        }
    }

    /// The prevalence of an enabled node type.
    pub fn get_prevalence_by_id(&self, id: usize) -> (r: Result<u32, Error>)
        ensures
            match r {
                Ok(p) => self@.contains_key(id) && p == self@[id].prevalence,
                Err(e) => e == Error::PrevalenceConfigure && !self@.contains_key(id),
            },
    {
        match self.node_type_mapping_descriptors.get(&id) {
            Some(d) => Ok(d.prevalence),
            None => Err(Error::PrevalenceConfigure),
        }
    }
}

/// `d` with its prevalence replaced by `p`.
pub open spec fn with_prevalence(d: NodeSelectionDescriptor, p: u32) -> NodeSelectionDescriptor {
    NodeSelectionDescriptor {
        minimum_connections: d.minimum_connections,
        maximum_connections: d.maximum_connections,
        description: d.description,
        name: d.name,
        prevalence: p,
    }
}

/// The catalog `m` after the canonical entries of every category are written into it.
pub open spec fn with_all(m: Map<usize, NodeSelectionDescriptor>) -> Map<
    usize,
    NodeSelectionDescriptor,
> {
    Map::new(
        |id: usize| m.contains_key(id) || canonical(id) is Some,
        |id: usize|
            if canonical(id) is Some {
                canonical(id).unwrap()
            } else {
                m[id]
            },
    )
}

/// The identifiers with a canonical descriptor are exactly those of the five categories.
pub proof fn lemma_known_ids()
    ensures
        forall|id: usize| #![auto]
            canonical(id) is Some <==> (in_category(Category::Logic, id) || in_category(
                Category::SimpleArithmetic,
                id,
            ) || in_category(Category::AdvancedArithmetic, id) || in_category(
                Category::StringModification,
                id,
            ) || in_category(Category::Special, id)),
{
}

/// Enabling a category and then disabling it leaves every entry outside the category as it
/// was, and no entry of the category; a catalog that held none of the category comes back
/// unchanged.
pub proof fn lemma_enable_then_disable(m: Map<usize, NodeSelectionDescriptor>, c: Category)
    ensures
        without_category(with_category(m, c), c) == without_category(m, c),
        (forall|id: usize| #[trigger] m.contains_key(id) ==> !in_category(c, id)) ==> without_category(
            with_category(m, c),
            c,
        ) == m,
{
    assert(without_category(with_category(m, c), c) =~= without_category(m, c));
    if forall|id: usize| #[trigger] m.contains_key(id) ==> !in_category(c, id) {
        assert(without_category(m, c) =~= m);
    }
}

/// Every canonical descriptor that has both connection bounds has them in order.
pub proof fn lemma_canonical_bounds_ordered(id: usize)
    ensures
        canonical(id) is Some ==> bounds_ordered(canonical(id).unwrap()),
{
}

/// Every entry of a well-formed table has its connection bounds in order.
pub proof fn lemma_table_bounds_ordered(t: &NodeSelectionTable, id: usize)
    requires
        t.wf(),
        t@.contains_key(id),
    ensures
        bounds_ordered(t@[id]),
{
    lemma_canonical_bounds_ordered(id);
}

} // verus!
