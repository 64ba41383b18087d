use vstd::prelude::*;
use crate::catalog::{canonical, canonical_descriptor};

verus! {

/// The smallest element of `s` (0 for an empty sequence).
pub open spec fn min_of(s: Seq<i64>) -> i64
    decreases s.len(),
{
    if s.len() == 0 {
        0
    } else if s.len() == 1 {
        s[0]
    } else {
        let m = min_of(s.drop_last());
        if s.last() < m {
            s.last()
        } else {
            m
        }
    }
}

/// The largest element of `s` (0 for an empty sequence).
pub open spec fn max_of(s: Seq<i64>) -> i64
    decreases s.len(),
{
    if s.len() == 0 {
        0
    } else if s.len() == 1 {
        s[0]
    } else {
        let m = max_of(s.drop_last());
        if s.last() > m {
            s.last()
        } else {
            m
        }
    }
}

/// `x` leans true when it is at least the mean of the smallest and the largest input.
pub open spec fn leans_true(x: i64, lo: i64, hi: i64) -> bool {
    2 * x >= lo + hi
}

/// The AND scan: some input leans false and is not the smallest input.
pub open spec fn and_finds_false(s: Seq<i64>) -> bool {
    exists|i: int|
        0 <= i < s.len() && !leans_true(#[trigger] s[i], min_of(s), max_of(s)) && s[i] != min_of(s)
}

/// The OR scan: some input leans true and is neither the smallest nor the largest input.
pub open spec fn or_finds_true(s: Seq<i64>) -> bool {
    exists|i: int|
        0 <= i < s.len() && leans_true(#[trigger] s[i], min_of(s), max_of(s)) && s[i] != min_of(s)
            && s[i] != max_of(s)
}

/// How many elements of `s` lean true against the bounds `lo` and `hi`.
pub open spec fn count_true(s: Seq<i64>, lo: i64, hi: i64) -> nat
    decreases s.len(),
{
    if s.len() == 0 {
        0
    } else {
        count_true(s.drop_last(), lo, hi) + if leans_true(s.last(), lo, hi) {
            1nat
        } else {
            0nat
        }
    }
}

/// Whether every element of `s` equals the first.
pub open spec fn all_equal(s: Seq<i64>) -> bool {
    forall|i: int| 0 <= i < s.len() ==> #[trigger] s[i] == s[0]
}

pub open spec fn fits_i64(x: int) -> bool {
    i64::MIN <= x <= i64::MAX
}

/// `x` as an `i64` where it fits, `None` where it does not.
pub open spec fn checked(x: int) -> Option<i64> {
    if fits_i64(x) {
        Some(x as i64)
    } else {
        None
    }
}

/// The four folding operators of basic arithmetic.
#[derive(Debug, Clone, Copy, PartialEq, Eq, Structural)]
pub enum ArithOp {
    Add,
    Subtract,
    Multiply,
    Divide,
}

/// One step of a fold: `None` on overflow or on a zero divisor. Division truncates toward zero.
pub open spec fn apply_op(op: ArithOp, a: i64, b: i64) -> Option<i64> {
    match op {
        ArithOp::Add => checked(a + b),
        ArithOp::Subtract => checked(a - b),
        ArithOp::Multiply => checked(a * b),
        ArithOp::Divide => a.checked_div(b),
    }
}

/// The left fold of `op` over `s`, starting from its first element; `None` once any step fails.
pub open spec fn fold_op(op: ArithOp, s: Seq<i64>) -> Option<i64>
    decreases s.len(),
{
    if s.len() == 0 {
        None
    } else if s.len() == 1 {
        Some(s[0])
    } else {
        match fold_op(op, s.drop_last()) {
            Some(a) => apply_op(op, a, s.last()),
            None => None,
        }
    }
}

/// `a` multiplied by itself `e` times, starting from 1; `None` once a partial product overflows.
pub open spec fn power_checked(a: i64, e: nat) -> Option<i64>
    decreases e,
{
    if e == 0 {
        Some(1)
    } else {
        match power_checked(a, (e - 1) as nat) {
            Some(p) => checked(p * a),
            None => None,
        }
    }
}

/// The remainder of `a` by `b` that goes with division truncated toward zero; `None` where
/// that division has no result.
pub open spec fn remainder(a: i64, b: i64) -> Option<i64> {
    match a.checked_div(b) {
        Some(q) => checked(a - q * b),
        None => None,
    }
}

/// Whether `n` inputs satisfy the canonical connection bounds of node type `t`.
pub open spec fn arity_ok(t: usize, n: nat) -> bool {
    match canonical(t) {
        Some(d) => {
            &&& match d.minimum_connections {
                Some(lo) => lo <= n,
                None => true,
            }
            &&& match d.maximum_connections {
                Some(hi) => n <= hi,
                None => true,
            }
        },
        None => false,
    }
}

/// The integer between `a` and `b` (both included) that the random value `draw` selects.
pub open spec fn draw_between(a: i64, b: i64, draw: u64) -> i64 {
    let lo = if a <= b { a } else { b };
    let hi = if a <= b { b } else { a };
    (lo + (draw as int) % (hi - lo + 1)) as i64
}

/// The mapped truth value: `hi` where `truth` holds, `lo` where it does not.
pub open spec fn mapped(truth: bool, lo: i64, hi: i64) -> i64 {
    if truth {
        hi
    } else {
        lo
    }
}

/// What a node of type `t` outputs on the inputs `s`; `draw` is read by the random operator only.
/// `None` is the no-result signal: unknown type, inputs outside the type's connection bounds,
/// an overflow or a zero divisor, a negative exponent, a text operator, or an operator whose
/// result is in general no integer (root and the trigonometric functions).
pub open spec fn node_result(t: usize, s: Seq<i64>, draw: u64) -> Option<i64> {
    if !arity_ok(t, s.len()) {
        None
    } else {
        let lo = min_of(s);
        let hi = max_of(s);
        match t {
            101 => Some(mapped(!and_finds_false(s), lo, hi)),
            102 => Some(mapped(or_finds_true(s), lo, hi)),
            103 => Some(mapped(!or_finds_true(s), lo, hi)),
            104 => checked(-s[0]),
            105 => Some(mapped(and_finds_false(s), lo, hi)),
            106 => Some(mapped(count_true(s, lo, hi) % 2 == 1, lo, hi)),
            107 => Some(mapped(all_equal(s), lo, hi)),
            108 => Some(if s[0] == s[1] { s[2] } else { 0 }),
            109 => Some(mapped(s[0] > s[1], lo, hi)),
            110 => Some(if s[0] > s[1] { s[2] } else { 0 }),
            111 => Some(mapped(s[0] < s[1], lo, hi)),
            112 => Some(if s[0] < s[1] { s[2] } else { 0 }),
            113 => Some(s[0]),
            114 => Some(mapped(s[0] >= s[1], lo, hi)),
            115 => Some(if s[0] >= s[1] { s[2] } else { 0 }),
            116 => Some(mapped(s[0] <= s[1], lo, hi)),
            117 => Some(if s[0] <= s[1] { s[2] } else { 0 }),
            201 => fold_op(ArithOp::Add, s),
            202 => fold_op(ArithOp::Subtract, s),
            203 => fold_op(ArithOp::Multiply, s),
            204 => fold_op(ArithOp::Divide, s),
            206 => if s[1] < 0 {
                None
            } else {
                power_checked(s[0], s[1] as nat)
            },
            213 => checked(if s[0] < 0 { -s[0] } else { s[0] as int }),
            214 | 215 | 216 => Some(s[0]),
            217 => checked(-s[0]),
            218 => Some(if s[0] <= s[1] { s[0] } else { s[1] }),
            219 => Some(if s[0] >= s[1] { s[0] } else { s[1] }),
            220 => remainder(s[0], s[1]),
            221 => Some(if s[0] < 0 { s[0] } else { (-s[0]) as i64 }),
            401 => Some(draw_between(s[0], s[1], draw)),
            _ => None,
        }
    }
}

/// The smallest and the largest input.
pub fn extremes(inputs: &Vec<i64>) -> (r: (i64, i64))
    requires
        inputs.len() > 0,
    ensures
        r == (min_of(inputs@), max_of(inputs@)),
{
    let mut lo: i64 = inputs[0];
    let mut hi: i64 = inputs[0];
    let mut i: usize = 1;
    assert(inputs@.take(1) =~= seq![inputs@[0]]);
    while i < inputs.len()
        invariant
            1 <= i <= inputs.len(),
            lo == min_of(inputs@.take(i as int)),
            hi == max_of(inputs@.take(i as int)),
        decreases inputs.len() - i,
    {
        assert(inputs@.take(i + 1).drop_last() =~= inputs@.take(i as int));
        let x = inputs[i];
        if x < lo {
            lo = x;
        }
        if x > hi {
            hi = x;
        }
        i = i + 1;
    }
    assert(inputs@.take(i as int) =~= inputs@);
    (lo, hi)
}

/// Runs the AND scan against the extremes `lo` and `hi`.
fn and_scan(inputs: &Vec<i64>, lo: i64, hi: i64) -> (r: bool)
    requires
        lo == min_of(inputs@),
        hi == max_of(inputs@),
    ensures
        r == and_finds_false(inputs@),
{
    let mut i: usize = 0;
    while i < inputs.len()
        invariant
            i <= inputs.len(),
            lo == min_of(inputs@),
            hi == max_of(inputs@),
            forall|j: int|
                0 <= j < i ==> !(!leans_true(#[trigger] inputs@[j], lo, hi) && inputs@[j] != lo),
        decreases inputs.len() - i,
    {
        let x = inputs[i];
        if 2 * (x as i128) < (lo as i128) + (hi as i128) && x != lo {
            return true;
        }
        i = i + 1;
    }
    false
}

/// Runs the OR scan against the extremes `lo` and `hi`.
fn or_scan(inputs: &Vec<i64>, lo: i64, hi: i64) -> (r: bool)
    requires
        lo == min_of(inputs@),
        hi == max_of(inputs@),
    ensures
        r == or_finds_true(inputs@),
{
    let mut i: usize = 0;
    while i < inputs.len()
        invariant
            i <= inputs.len(),
            lo == min_of(inputs@),
            hi == max_of(inputs@),
            forall|j: int|
                0 <= j < i ==> !(leans_true(#[trigger] inputs@[j], lo, hi) && inputs@[j] != lo
                    && inputs@[j] != hi),
        decreases inputs.len() - i,
    {
        let x = inputs[i];
        if 2 * (x as i128) >= (lo as i128) + (hi as i128) && x != lo && x != hi {
            return true;
        }
        i = i + 1;
    }
    false
}

/// Whether an odd number of inputs lean true against `lo` and `hi`.
fn odd_true_count(inputs: &Vec<i64>, lo: i64, hi: i64) -> (r: bool)
    ensures
        r == (count_true(inputs@, lo, hi) % 2 == 1),
{
    let mut odd = false;
    let mut i: usize = 0;
    while i < inputs.len()
        invariant
            i <= inputs.len(),
            odd == (count_true(inputs@.take(i as int), lo, hi) % 2 == 1),
        decreases inputs.len() - i,
    {
        assert(inputs@.take(i + 1).drop_last() =~= inputs@.take(i as int));
        let x = inputs[i];
        if 2 * (x as i128) >= (lo as i128) + (hi as i128) {
            odd = !odd;
        }
        i = i + 1;
    }
    assert(inputs@.take(i as int) =~= inputs@);
    odd
}

/// Whether every input equals the first.
fn all_same(inputs: &Vec<i64>) -> (r: bool)
    requires
        inputs.len() > 0,
    ensures
        r == all_equal(inputs@),
{
    let first = inputs[0];
    let mut i: usize = 0;
    while i < inputs.len()
        invariant
            i <= inputs.len(),
            first == inputs@[0],
            forall|j: int| 0 <= j < i ==> #[trigger] inputs@[j] == first,
        decreases inputs.len() - i,
    {
        if inputs[i] != first {
            return false;
        }
        i = i + 1;
    }
    true
}

/// A failed step ends the fold: once a prefix has no result, neither has the whole.
proof fn lemma_fold_none_extends(op: ArithOp, s: Seq<i64>, i: int)
    requires
        1 <= i <= s.len(),
        fold_op(op, s.take(i)) is None,
    ensures
        fold_op(op, s) is None,
    decreases s.len(),
{
    if i == s.len() {
        assert(s.take(i) =~= s);
    } else {
        assert(s.drop_last().take(i) =~= s.take(i));
        lemma_fold_none_extends(op, s.drop_last(), i);
    }
}

/// One step of a fold.
fn apply_step(op: ArithOp, a: i64, b: i64) -> (r: Option<i64>)
    ensures
        r == apply_op(op, a, b),
{
    match op {
        ArithOp::Add => a.checked_add(b),
        ArithOp::Subtract => a.checked_sub(b),
        ArithOp::Multiply => a.checked_mul(b),
        ArithOp::Divide => a.checked_div(b),
    }
}

/// Folds `op` over the inputs from the left.
pub fn fold_inputs(op: ArithOp, inputs: &Vec<i64>) -> (r: Option<i64>)
    ensures
        r == fold_op(op, inputs@),
{
    if inputs.len() == 0 {
        return None;
    }
    let mut acc: i64 = inputs[0];
    let mut i: usize = 1;
    assert(inputs@.take(1) =~= seq![inputs@[0]]);
    while i < inputs.len()
        invariant
            1 <= i <= inputs.len(),
            fold_op(op, inputs@.take(i as int)) == Some(acc),
        decreases inputs.len() - i,
    {
        assert(inputs@.take(i + 1).drop_last() =~= inputs@.take(i as int));
        match apply_step(op, acc, inputs[i]) {
            Some(v) => {
                acc = v;
            },
            None => {
                proof {
                    lemma_fold_none_extends(op, inputs@, i + 1);
                }
                return None;
            },
        }
        i = i + 1;
    }
    assert(inputs@.take(i as int) =~= inputs@);
    Some(acc)
}

/// Picks the integer between `a` and `b` that `draw` selects.
pub fn pick_between(a: i64, b: i64, draw: u64) -> (r: i64)
    ensures
        r == draw_between(a, b, draw),
        (if a <= b { a } else { b }) <= r <= (if a <= b { b } else { a }),
{
    let lo: i64 = if a <= b { a } else { b };
    let hi: i64 = if a <= b { b } else { a };
    let width: i128 = (hi as i128) - (lo as i128) + 1;
    let offset: i128 = (draw as i128) % width;
    ((lo as i128) + offset) as i64
}

/// Whether `n` inputs satisfy the canonical connection bounds of node type `t`.
pub fn arity_allows(t: usize, n: usize) -> (r: bool)
    ensures
        r == arity_ok(t, n as nat),
{
    match canonical_descriptor(t) {
        Some(d) => {
            let above_min = match d.minimum_connections {
                Some(lo) => lo <= n,
                None => true,
            };
            let below_max = match d.maximum_connections {
                Some(hi) => n <= hi,
                None => true,
            };
            above_min && below_max
        },
        None => false,
    }
}

/// Evaluates a node of type `node_type` on `inputs`; the random operator uses `draw`.
pub fn run_node_drawn(node_type: usize, inputs: &Vec<i64>, draw: u64) -> (r: Option<i64>)
    ensures
        r == node_result(node_type, inputs@, draw),
{
    if !arity_allows(node_type, inputs.len()) {
        return None;
    }
    let (lo, hi) = extremes(inputs);
    match node_type {
        101 => Some(if and_scan(inputs, lo, hi) { lo } else { hi }),
        102 => Some(if or_scan(inputs, lo, hi) { hi } else { lo }),
        103 => Some(if or_scan(inputs, lo, hi) { lo } else { hi }),
        104 | 217 => if inputs[0] == i64::MIN {
            None
        } else {
            Some(-inputs[0])
        },
        105 => Some(if and_scan(inputs, lo, hi) { hi } else { lo }),
        106 => Some(if odd_true_count(inputs, lo, hi) { hi } else { lo }),
        107 => Some(if all_same(inputs) { hi } else { lo }),
        108 => Some(if inputs[0] == inputs[1] { inputs[2] } else { 0 }),
        109 => Some(if inputs[0] > inputs[1] { hi } else { lo }),
        110 => Some(if inputs[0] > inputs[1] { inputs[2] } else { 0 }),
        111 => Some(if inputs[0] < inputs[1] { hi } else { lo }),
        112 => Some(if inputs[0] < inputs[1] { inputs[2] } else { 0 }),
        113 | 214 | 215 | 216 => Some(inputs[0]),
        114 => Some(if inputs[0] >= inputs[1] { hi } else { lo }),
        115 => Some(if inputs[0] >= inputs[1] { inputs[2] } else { 0 }),
        116 => Some(if inputs[0] <= inputs[1] { hi } else { lo }),
        117 => Some(if inputs[0] <= inputs[1] { inputs[2] } else { 0 }),
        201 => fold_inputs(ArithOp::Add, inputs),
        202 => fold_inputs(ArithOp::Subtract, inputs),
        203 => fold_inputs(ArithOp::Multiply, inputs),
        204 => fold_inputs(ArithOp::Divide, inputs),
        206 => if inputs[1] < 0 {
            None
        } else {
            power(inputs[0], inputs[1] as u64)
        },
        220 => remainder_of(inputs[0], inputs[1]),
        213 => if inputs[0] == i64::MIN {
            None
        } else if inputs[0] < 0 {
            Some(-inputs[0])
        } else {
            Some(inputs[0])
        },
        218 => Some(if inputs[0] <= inputs[1] { inputs[0] } else { inputs[1] }),
        219 => Some(if inputs[0] >= inputs[1] { inputs[0] } else { inputs[1] }),
        221 => Some(if inputs[0] < 0 { inputs[0] } else { -inputs[0] }),
        401 => Some(pick_between(inputs[0], inputs[1], draw)),
        _ => None,
    }
}

/// Relies on std's `RandomState::new`: each state it returns carries fresh random keys.
#[verifier::external_body]
fn fresh_random_state() -> (r: std::collections::hash_map::RandomState) {
    std::collections::hash_map::RandomState::new()
}

/// Relies on std's `BuildHasher::hash_one`: the hash of a fixed value under a randomly keyed
/// state is an unpredictable `u64`. Nothing is claimed of the value.
#[verifier::external_body]
fn hash_under(state: &std::collections::hash_map::RandomState) -> (r: u64) {
    std::hash::BuildHasher::hash_one(state, 0u8)
}

/// A fresh random value for the random operator.
pub fn random_draw() -> (r: u64) {
    let state = fresh_random_state();
    hash_under(&state)
}

/// Evaluates a node of type `node_type` on `inputs`. Only the random operator reads a random
/// value, and its output lies between its two inputs whatever value was drawn.
pub fn run_node(node_type: usize, inputs: Vec<i64>) -> (r: Option<i64>)
    ensures
        exists|draw: u64| r == node_result(node_type, inputs@, draw),
        node_type != 401 ==> r == node_result(node_type, inputs@, 0),
{
    let draw: u64 = if node_type == 401 {
        random_draw()
    } else {
        0
    };
    let r = run_node_drawn(node_type, &inputs, draw);
    proof {
        if node_type != 401 {
            lemma_draw_read_by_random_only(node_type, inputs@, draw, 0);
        }
    }
    r
}

/// Only the random operator depends on the drawn value.
pub proof fn lemma_draw_read_by_random_only(t: usize, s: Seq<i64>, d1: u64, d2: u64)
    requires
        t != 401,
    ensures
        node_result(t, s, d1) == node_result(t, s, d2),
{
}

/// The random operator always has a result on two inputs, and it lies between them.
pub proof fn lemma_random_within_bounds(a: i64, b: i64, draw: u64)
    ensures
        node_result(401, seq![a, b], draw) is Some,
        (if a <= b { a } else { b }) <= node_result(401, seq![a, b], draw).unwrap() <= (if a <= b {
            b
        } else {
            a
        }),
{
    assert(arity_ok(401, 2));
    let lo: int = if a <= b { a as int } else { b as int };
    let hi: int = if a <= b { b as int } else { a as int };
    let off = (draw as int) % (hi - lo + 1);
    assert(0 <= off < hi - lo + 1);
}

/// NOT negates its single input, for every input whose negation is an `i64`.
pub proof fn lemma_not_negates(x: i64, draw: u64)
    requires
        x != i64::MIN,
    ensures
        node_result(104, seq![x], draw) == Some((-x) as i64),
{
    assert(arity_ok(104, 1));
}

proof fn lemma_power_of_small_base(a: i64, e: nat)
    requires
        -1 <= a <= 1,
    ensures
        power_checked(a, e) == Some(
            if e == 0 || a == 1 || (a == -1 && e % 2 == 0) {
                1i64
            } else if a == 0 {
                0i64
            } else {
                -1i64
            },
        ),
    decreases e,
{
    if e > 0 {
        lemma_power_of_small_base(a, (e - 1) as nat);
    }
}

/// `a` raised to the power `e` by repeated multiplication, `None` on overflow.
pub fn power(a: i64, e: u64) -> (r: Option<i64>)
    ensures
        r == power_checked(a, e as nat),
{
    if -1 <= a && a <= 1 {
        proof {
            lemma_power_of_small_base(a, e as nat);
        }
        return if e == 0 || a == 1 || (a == -1 && e % 2 == 0) {
            Some(1)
        } else if a == 0 {
            Some(0)
        } else {
            Some(-1)
        };
    }
    let mut acc: i64 = 1;
    let mut i: u64 = 0;
    while i < e
        invariant
            i <= e,
            power_checked(a, i as nat) == Some(acc),
        decreases e - i,
    {
        match acc.checked_mul(a) {
            Some(v) => {
                acc = v;
            },
            None => {
                proof {
                    lemma_power_none_extends(a, (i + 1) as nat, e as nat);
                }
                return None;
            },
        }
        i = i + 1;
    }
    Some(acc)
}

proof fn lemma_power_none_extends(a: i64, i: nat, e: nat)
    requires
        i <= e,
        power_checked(a, i) is None,
    ensures
        power_checked(a, e) is None,
    decreases e - i,
{
    if i < e {
        lemma_power_none_extends(a, i + 1, e);
    }
}

/// The remainder of `a` by `b`, with the quotient truncated toward zero.
pub fn remainder_of(a: i64, b: i64) -> (r: Option<i64>)
    ensures
        r == remainder(a, b),
{
    match a.checked_div(b) {
        Some(q) => {
            let qi = q as i128;
            let bi = b as i128;
            proof {
                assert(-0x4000_0000_0000_0000_0000_0000_0000_0000 <= qi * bi <= 0x4000_0000_0000_0000_0000_0000_0000_0000)
                    by (nonlinear_arith)
                    requires
                        -0x8000_0000_0000_0000 <= qi < 0x8000_0000_0000_0000,
                        -0x8000_0000_0000_0000 <= bi < 0x8000_0000_0000_0000,
                ;
            }
            let rem: i128 = (a as i128) - qi * bi;
            if rem < i64::MIN as i128 || rem > i64::MAX as i128 {
                None
            } else {
                Some(rem as i64)
            }
        },
        None => None,
    }
}

} // verus!
