use std::collections::hash_map::DefaultHasher;
use std::hash::{Hash, Hasher};

use autograd::engine::{Graph, Value};
use autograd::ArithmeticError;

fn hash_of(v: &Value) -> u64 {
    let mut h = DefaultHasher::new();
    v.hash(&mut h);
    h.finish()
}

#[test]
fn test_add_int() {
    let mut g: Graph<i32> = Graph::new();
    let v1 = Value::from(&mut g, 5);
    let v2 = Value::from(&mut g, -1);

    assert_eq!(v1.add(&mut g, &v2).unwrap().data(&g), 4);

    let v4 = v1.add_owned(&mut g, v2).unwrap();
    assert_eq!(v4.data(&g), 4);
}

#[test]
fn leaf_holds_value_and_default_gradient() {
    let mut g: Graph<i64> = Graph::new();
    let v = Value::from(&mut g, -17);
    assert_eq!(v.data(&g), -17);
    assert_eq!(v.grad(&g), 0);
    assert_eq!(g.len(), 1);
}

#[test]
fn default_node_holds_default_scalar() {
    let mut g: Graph<u32> = Graph::new();
    let v = Value::default(&mut g);
    assert_eq!(v.data(&g), 0);
    assert_eq!(v.grad(&g), 0);
}

#[test]
fn add_sums_operands() {
    let mut g: Graph<i32> = Graph::new();
    let two = Value::from(&mut g, 2);
    let three = Value::from(&mut g, 3);
    let v2 = Value::from(&mut g, -1);
    assert_eq!(two.add(&mut g, &three).unwrap().data(&g), 5);
    assert_eq!(three.add(&mut g, &v2).unwrap().data(&g), 2);
    assert_eq!(two.data(&g), 2);
    assert_eq!(three.data(&g), 3);
}

#[test]
fn mul_multiplies_operands() {
    let mut g: Graph<i64> = Graph::new();
    let a = Value::from(&mut g, 3);
    let b = Value::from(&mut g, -4);
    let p = a.mul(&mut g, &b).unwrap();
    assert_eq!(p.data(&g), -12);
    let q = a.mul_owned(&mut g, b).unwrap();
    assert_eq!(q.data(&g), -12);
    assert_ne!(p, q);
}

#[test]
fn consuming_and_borrowing_forms_agree() {
    let mut g: Graph<i32> = Graph::new();
    let a = Value::from(&mut g, 7);
    let b = Value::from(&mut g, 6);
    let borrowed = a.add(&mut g, &b).unwrap();
    let consumed = a.add_owned(&mut g, b).unwrap();
    assert_eq!(borrowed.data(&g), consumed.data(&g));
    let borrowed = a.mul(&mut g, &b).unwrap();
    let consumed = a.mul_owned(&mut g, b).unwrap();
    assert_eq!(borrowed.data(&g), 42);
    assert_eq!(consumed.data(&g), 42);
}

#[test]
fn add_backward_passes_gradient_to_both_operands() {
    let mut g: Graph<i32> = Graph::new();
    let a = Value::from(&mut g, 10);
    let b = Value::from(&mut g, 20);
    let out = a.add(&mut g, &b).unwrap();
    out.set_grad(&mut g, 1);
    out.local_backward(&mut g).unwrap();
    assert_eq!(a.grad(&g), 1);
    assert_eq!(b.grad(&g), 1);
    assert_eq!(out.grad(&g), 1);

    out.set_grad(&mut g, 5);
    out.local_backward(&mut g).unwrap();
    assert_eq!(a.grad(&g), 6);
    assert_eq!(b.grad(&g), 6);
}

#[test]
fn mul_backward_uses_other_factor() {
    let mut g: Graph<i32> = Graph::new();
    let a = Value::from(&mut g, 3);
    let b = Value::from(&mut g, 4);
    let out = a.mul(&mut g, &b).unwrap();
    out.set_grad(&mut g, 1);
    out.local_backward(&mut g).unwrap();
    assert_eq!(a.grad(&g), 4);
    assert_eq!(b.grad(&g), 3);
}

#[test]
fn mul_backward_scales_by_seed() {
    let mut g: Graph<i64> = Graph::new();
    let a = Value::from(&mut g, 3);
    let b = Value::from(&mut g, -5);
    let out = a.mul(&mut g, &b).unwrap();
    out.set_grad(&mut g, 2);
    out.local_backward(&mut g).unwrap();
    assert_eq!(a.grad(&g), -10);
    assert_eq!(b.grad(&g), 6);
}

#[test]
fn shared_operand_accumulates() {
    let mut g: Graph<i32> = Graph::new();
    let a = Value::from(&mut g, 9);
    let out = a.add(&mut g, &a).unwrap();
    assert_eq!(out.data(&g), 18);
    out.set_grad(&mut g, 3);
    out.local_backward(&mut g).unwrap();
    assert_eq!(a.grad(&g), 6);

    let sq = a.mul(&mut g, &a).unwrap();
    a.set_grad(&mut g, 0);
    sq.set_grad(&mut g, 1);
    sq.local_backward(&mut g).unwrap();
    assert_eq!(a.grad(&g), 18);
}

#[test]
fn leaves_compare_by_identity() {
    let mut g: Graph<i32> = Graph::new();
    let a = Value::from(&mut g, 1);
    let b = Value::from(&mut g, 1);
    assert_ne!(a, b);
    assert_ne!(hash_of(&a), hash_of(&b));
    let c = a;
    assert_eq!(a, c);
    assert_eq!(hash_of(&a), hash_of(&c));
}

#[test]
fn leaf_backward_changes_nothing() {
    let mut g: Graph<i32> = Graph::new();
    let a = Value::from(&mut g, 4);
    a.set_grad(&mut g, 2);
    a.local_backward(&mut g).unwrap();
    assert_eq!(a.grad(&g), 2);
    assert_eq!(a.data(&g), 4);
}

#[test]
fn add_overflow_is_an_error() {
    let mut g: Graph<i32> = Graph::new();
    let a = Value::from(&mut g, i32::MAX);
    let b = Value::from(&mut g, 1);
    assert_eq!(a.add(&mut g, &b), Err(ArithmeticError));
    assert_eq!(a.add_owned(&mut g, b), Err(ArithmeticError));
    assert_eq!(g.len(), 2);
}

#[test]
fn mul_overflow_is_an_error() {
    let mut g: Graph<u64> = Graph::new();
    let a = Value::from(&mut g, u64::MAX);
    let b = Value::from(&mut g, 2);
    assert_eq!(a.mul(&mut g, &b), Err(ArithmeticError));
    assert_eq!(a.mul_owned(&mut g, b), Err(ArithmeticError));
    assert_eq!(g.len(), 2);
}

#[test]
fn backward_overflow_leaves_gradients_unchanged() {
    let mut g: Graph<i32> = Graph::new();
    let a = Value::from(&mut g, 1);
    let b = Value::from(&mut g, 2);
    let out = a.add(&mut g, &b).unwrap();
    b.set_grad(&mut g, i32::MAX);
    out.set_grad(&mut g, 1);
    assert_eq!(out.local_backward(&mut g), Err(ArithmeticError));
    assert_eq!(a.grad(&g), 0);
    assert_eq!(b.grad(&g), i32::MAX);

    let p = a.mul(&mut g, &b).unwrap();
    p.set_grad(&mut g, i32::MAX);
    assert_eq!(p.local_backward(&mut g), Err(ArithmeticError));
    assert_eq!(a.grad(&g), 0);
}

#[test]
fn backward_pass_computes_derivatives() {
    // out = a * b + a, so d out / d a = b + 1 and d out / d b = a
    let mut g: Graph<i32> = Graph::new();
    let a = Value::from(&mut g, 3);
    let b = Value::from(&mut g, 4);
    let p = a.mul(&mut g, &b).unwrap();
    let out = p.add(&mut g, &a).unwrap();
    assert_eq!(out.data(&g), 15);
    out.backward(&mut g).unwrap();
    assert_eq!(out.grad(&g), 1);
    assert_eq!(p.grad(&g), 1);
    assert_eq!(a.grad(&g), 5);
    assert_eq!(b.grad(&g), 3);
}

#[test]
fn backward_pass_resets_earlier_gradients() {
    let mut g: Graph<i64> = Graph::new();
    let a = Value::from(&mut g, 2);
    let b = Value::from(&mut g, 5);
    let out = a.mul(&mut g, &b).unwrap();
    let later = out.add(&mut g, &a).unwrap();
    a.set_grad(&mut g, 100);
    later.set_grad(&mut g, 7);
    out.backward(&mut g).unwrap();
    assert_eq!(a.grad(&g), 5);
    assert_eq!(b.grad(&g), 2);
    assert_eq!(later.grad(&g), 0);
    out.backward(&mut g).unwrap();
    assert_eq!(a.grad(&g), 5);
}

#[test]
fn backward_pass_on_shared_node() {
    // out = (a + a) * a = 2 a^2, so d out / d a = 4 a
    let mut g: Graph<u64> = Graph::new();
    let a = Value::from(&mut g, 6);
    let s = a.add(&mut g, &a).unwrap();
    let out = s.mul(&mut g, &a).unwrap();
    assert_eq!(out.data(&g), 72);
    out.backward(&mut g).unwrap();
    assert_eq!(a.grad(&g), 24);
}

#[test]
fn backward_pass_from_leaf_seeds_it() {
    let mut g: Graph<i32> = Graph::new();
    let a = Value::from(&mut g, 8);
    a.backward(&mut g).unwrap();
    assert_eq!(a.grad(&g), 1);
}

#[test]
fn backward_pass_overflow_is_an_error() {
    // out = (x * y) * (x * x) with x = 1, y = MAX: the scalars fit, but x's
    // gradient would be 2 * MAX
    let mut g: Graph<i32> = Graph::new();
    let x = Value::from(&mut g, 1);
    let y = Value::from(&mut g, i32::MAX);
    let p = x.mul(&mut g, &y).unwrap();
    let q = x.mul(&mut g, &x).unwrap();
    let out = p.mul(&mut g, &q).unwrap();
    assert_eq!(out.data(&g), i32::MAX);
    assert_eq!(out.backward(&mut g), Err(ArithmeticError));
    assert_eq!(out.data(&g), i32::MAX);
    assert_eq!(g.len(), 5);
}
