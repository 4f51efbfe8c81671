use vstd::prelude::*;

use crate::engine::{
    backward_step, leaf_added, node_added, nodes_well_formed, node_well_formed, with_grad,
    Operation, Value, ValueImpl,
};
use crate::scalar::ValueTypeTraits;

verus! {

/// A new leaf holds the scalar it was made from, the default gradient, and no
/// operands.
pub proof fn lemma_leaf_identity<T: ValueTypeTraits>(
    old: Seq<ValueImpl<T>>,
    new: Seq<ValueImpl<T>>,
    r: Value,
    v: T,
)
    requires
        leaf_added(old, new, r, v),
    ensures
        new[r.id as int].data == v,
        new[r.id as int].grad == T::zero(),
        new[r.id as int].op == Operation::Leaf,
        new[r.id as int].operands() == Seq::<Value>::empty(),
{
}

/// The node made by adding `a` and `b` holds the sum of their scalars, and
/// the operands keep theirs.
pub proof fn lemma_add_data<T: ValueTypeTraits>(
    old: Seq<ValueImpl<T>>,
    new: Seq<ValueImpl<T>>,
    r: Value,
    a: Value,
    b: Value,
)
    requires
        a.id < old.len(),
        b.id < old.len(),
        node_added(old, new, r, Operation::Add, a, b),
    ensures
        new[r.id as int].data == T::sum(new[a.id as int].data, new[b.id as int].data),
        new[a.id as int].data == old[a.id as int].data,
        new[b.id as int].data == old[b.id as int].data,
        new[r.id as int].operands() == seq![a, b],
{
}

/// The node made by multiplying `a` and `b` holds the product of their
/// scalars, and the operands keep theirs.
pub proof fn lemma_mul_data<T: ValueTypeTraits>(
    old: Seq<ValueImpl<T>>,
    new: Seq<ValueImpl<T>>,
    r: Value,
    a: Value,
    b: Value,
)
    requires
        a.id < old.len(),
        b.id < old.len(),
        node_added(old, new, r, Operation::Multiply, a, b),
    ensures
        new[r.id as int].data == T::product(new[a.id as int].data, new[b.id as int].data),
        new[a.id as int].data == old[a.id as int].data,
        new[b.id as int].data == old[b.id as int].data,
        new[r.id as int].operands() == seq![a, b],
{
}

/// Running a node's local backward rule changes gradients only: every node
/// keeps its scalar, its operation and its operands, and the node itself
/// keeps its gradient.
pub proof fn lemma_backward_changes_gradients_only<T: ValueTypeTraits>(
    s: Seq<ValueImpl<T>>,
    out: Value,
    t: Seq<ValueImpl<T>>,
)
    requires
        nodes_well_formed(s),
        out.id < s.len(),
        backward_step(s, out) == Some(t),
    ensures
        t.len() == s.len(),
        forall|i: int|
            0 <= i < s.len() ==> #[trigger] t[i].data == s[i].data && t[i].op == s[i].op
                && t[i].prev == s[i].prev,
        t[out.id as int].grad == s[out.id as int].grad,
{
    assert(node_well_formed(s, out.id as int));
}

/// Seeding a sum node's gradient with `g` and running its backward rule adds
/// exactly `g` to the gradient of each of its two distinct operands.
pub proof fn lemma_add_backward<T: ValueTypeTraits>(
    s: Seq<ValueImpl<T>>,
    out: Value,
    g: T,
    t: Seq<ValueImpl<T>>,
)
    requires
        nodes_well_formed(s),
        out.id < s.len(),
        s[out.id as int].op == Operation::Add,
        s[out.id as int].operands()[0] != s[out.id as int].operands()[1],
        backward_step(with_grad(s, out, g), out) == Some(t),
    ensures
        ({
            let a = s[out.id as int].operands()[0].id as int;
            let b = s[out.id as int].operands()[1].id as int;
            &&& t[a].grad == T::sum(s[a].grad, g)
            &&& t[b].grad == T::sum(s[b].grad, g)
        }),
{
    assert(node_well_formed(s, out.id as int));
}

/// Seeding a product node's gradient with `g` and running its backward rule
/// adds to each of its two distinct operands the other operand's scalar times
/// `g`.
pub proof fn lemma_mul_backward<T: ValueTypeTraits>(
    s: Seq<ValueImpl<T>>,
    out: Value,
    g: T,
    t: Seq<ValueImpl<T>>,
)
    requires
        nodes_well_formed(s),
        out.id < s.len(),
        s[out.id as int].op == Operation::Multiply,
        s[out.id as int].operands()[0] != s[out.id as int].operands()[1],
        backward_step(with_grad(s, out, g), out) == Some(t),
    ensures
        ({
            let a = s[out.id as int].operands()[0].id as int;
            let b = s[out.id as int].operands()[1].id as int;
            &&& t[a].grad == T::sum(s[a].grad, T::product(s[b].data, g))
            &&& t[b].grad == T::sum(s[b].grad, T::product(s[a].data, g))
        }),
{
    assert(node_well_formed(s, out.id as int));
}

/// Where a sum node uses the same node `a` as both operands, seeding its
/// gradient with `g` and running its backward rule adds `g` to `a`'s gradient
/// twice: the contributions accumulate, neither overwrites the other.
pub proof fn lemma_shared_operand_accumulates<T: ValueTypeTraits>(
    s: Seq<ValueImpl<T>>,
    out: Value,
    a: Value,
    g: T,
    t: Seq<ValueImpl<T>>,
)
    requires
        nodes_well_formed(s),
        out.id < s.len(),
        s[out.id as int].op == Operation::Add,
        s[out.id as int].prev == Some((a, a)),
        backward_step(with_grad(s, out, g), out) == Some(t),
    ensures
        t[a.id as int].grad == T::sum(T::sum(s[a.id as int].grad, g), g),
{
    assert(node_well_formed(s, out.id as int));
}

/// Two leaves made one after the other are distinct nodes, even when they
/// hold the same scalar, while a handle is equal to itself and to its copies.
pub proof fn lemma_leaves_are_distinct<T: ValueTypeTraits>(
    s0: Seq<ValueImpl<T>>,
    s1: Seq<ValueImpl<T>>,
    s2: Seq<ValueImpl<T>>,
    x: Value,
    y: Value,
    v: T,
    w: T,
)
    requires
        leaf_added(s0, s1, x, v),
        leaf_added(s1, s2, y, w),
    ensures
        x != y,
        x == x,
        s2[x.id as int].data == v,
        s2[y.id as int].data == w,
{
}

} // verus!
