use vstd::prelude::*;

use crate::scalar::ValueTypeTraits;
use crate::ArithmeticError;

verus! {

/// The operation that produced a node; `Leaf` marks a node built directly from a scalar.
#[derive(Debug, Clone, Copy, PartialEq, Eq, Hash, Structural)]
pub enum Operation {
    Leaf,
    Add,
    Multiply,
}

/// A handle to a node of a `Graph`: the node's position in the graph.
///
/// Handles compare and hash by identity: two handles are equal exactly when
/// they name the same node, whatever the nodes hold.
#[derive(Debug, Clone, Copy, PartialEq, Eq, Hash, Structural)]
pub struct Value {
    pub id: usize,
}

/// The storage of one node: its scalar, its accumulated gradient, the
/// operation that produced it and, for a derived node, its two operands in
/// order (left first).
#[derive(Debug, Clone, Copy)]
pub struct ValueImpl<T: ValueTypeTraits> {
    pub data: T,
    pub grad: T,
    pub op: Operation,
    pub prev: Option<(Value, Value)>,
}

impl<T: ValueTypeTraits> ValueImpl<T> {
    /// A node built directly from a scalar.
    pub open spec fn leaf(data: T) -> ValueImpl<T> {
        ValueImpl { data, grad: T::zero(), op: Operation::Leaf, prev: None }
    }

    /// A node produced by `op` from the operands `a` and `b`.
    pub open spec fn derived(data: T, op: Operation, a: Value, b: Value) -> ValueImpl<T> {
        ValueImpl { data, grad: T::zero(), op, prev: Some((a, b)) }
    }

    /// The operands as an ordered sequence: empty for a leaf, two for a
    /// derived node.
    pub open spec fn operands(self) -> Seq<Value> {
        match self.prev {
            None => seq![],
            Some((a, b)) => seq![a, b],
        }
    }
}

/// An arena that owns every node of an expression graph. Operands always
/// precede the nodes built from them, so the graph is acyclic by construction
/// and the positions give a topological order.
pub struct Graph<T: ValueTypeTraits> {
    nodes: Vec<ValueImpl<T>>,
}

/// Whether node `i` of `s` is a leaf without operands, or a derived node
/// whose operands stand before it.
pub open spec fn node_well_formed<T: ValueTypeTraits>(s: Seq<ValueImpl<T>>, i: int) -> bool {
    match s[i].prev {
        None => s[i].op == Operation::Leaf,
        Some((a, b)) => s[i].op != Operation::Leaf && a.id < i && b.id < i,
    }
}

/// The well-formedness of a sequence of nodes.
pub open spec fn nodes_well_formed<T: ValueTypeTraits>(s: Seq<ValueImpl<T>>) -> bool {
    forall|i: int| 0 <= i < s.len() ==> #[trigger] node_well_formed(s, i)
}

/// `s` with the gradient of node `v` replaced by `g`.
pub open spec fn with_grad<T: ValueTypeTraits>(s: Seq<ValueImpl<T>>, v: Value, g: T) -> Seq<
    ValueImpl<T>,
> {
    s.update(v.id as int, ValueImpl { grad: g, ..s[v.id as int] })
}

/// `new` is `old` with one more leaf, `r`, holding `v`.
pub open spec fn leaf_added<T: ValueTypeTraits>(
    old: Seq<ValueImpl<T>>,
    new: Seq<ValueImpl<T>>,
    r: Value,
    v: T,
) -> bool {
    &&& r.id == old.len()
    &&& new == old.push(ValueImpl::leaf(v))
}

/// The scalar that `op` computes from the operands' scalars.
pub open spec fn apply<T: ValueTypeTraits>(op: Operation, x: T, y: T) -> T {
    if op == Operation::Multiply {
        T::product(x, y)
    } else {
        T::sum(x, y)
    }
}

/// Whether `op` can compute a scalar from `x` and `y`.
pub open spec fn apply_defined<T: ValueTypeTraits>(op: Operation, x: T, y: T) -> bool {
    if op == Operation::Multiply {
        T::mul_defined(x, y)
    } else {
        T::add_defined(x, y)
    }
}

/// `new` is `old` with one more node, `r`, produced by `op` from `a` and `b`.
pub open spec fn node_added<T: ValueTypeTraits>(
    old: Seq<ValueImpl<T>>,
    new: Seq<ValueImpl<T>>,
    r: Value,
    op: Operation,
    a: Value,
    b: Value,
) -> bool {
    &&& r.id == old.len()
    &&& new == old.push(
        ValueImpl::derived(apply(op, old[a.id as int].data, old[b.id as int].data), op, a, b),
    )
}

/// What an operand receives from a node with gradient `g` produced by `op`,
/// where `other` is the scalar of the other operand.
pub open spec fn share<T: ValueTypeTraits>(op: Operation, other: T, g: T) -> T {
    if op == Operation::Multiply {
        T::product(other, g)
    } else {
        g
    }
}

/// Whether `share(op, other, g)` can be computed.
pub open spec fn share_defined<T: ValueTypeTraits>(op: Operation, other: T, g: T) -> bool {
    op == Operation::Multiply ==> T::mul_defined(other, g)
}

/// The nodes after the local backward rule of `out` has run on `s`: the left
/// operand receives its share first, then the right one, so an operand used
/// twice receives both. `None` where a step cannot be represented.
pub open spec fn backward_step<T: ValueTypeTraits>(s: Seq<ValueImpl<T>>, out: Value) -> Option<
    Seq<ValueImpl<T>>,
> {
    let node = s[out.id as int];
    match node.prev {
        None => Some(s),
        Some((a, b)) => {
            let g = node.grad;
            let da = s[a.id as int].data;
            let db = s[b.id as int].data;
            let ca = share(node.op, db, g);
            let cb = share(node.op, da, g);
            let s1 = with_grad(s, a, T::sum(s[a.id as int].grad, ca));
            let s2 = with_grad(s1, b, T::sum(s1[b.id as int].grad, cb));
            if share_defined(node.op, db, g) && share_defined(node.op, da, g) && T::add_defined(
                s[a.id as int].grad,
                ca,
            ) && T::add_defined(s1[b.id as int].grad, cb) {
                Some(s2)
            } else {
                None
            }
        },
    }
}

/// The nodes as a backward pass from `root` starts them: the root's gradient
/// is the multiplicative identity and every other gradient the default.
pub open spec fn seeded<T: ValueTypeTraits>(s: Seq<ValueImpl<T>>, root: Value) -> Seq<
    ValueImpl<T>,
> {
    Seq::new(
        s.len(),
        |i: int|
            ValueImpl {
                grad: if i == root.id {
                    T::one()
                } else {
                    T::zero()
                },
                ..s[i]
            },
    )
}

/// The nodes after the local backward rules of nodes `k - 1` down to `0` have
/// run on `s`, in that order; `None` where a step cannot be represented.
pub open spec fn run_backward<T: ValueTypeTraits>(s: Seq<ValueImpl<T>>, k: nat) -> Option<
    Seq<ValueImpl<T>>,
>
    decreases k,
{
    if k == 0 {
        Some(s)
    } else {
        match backward_step(s, Value { id: (k - 1) as usize }) {
            None => None,
            Some(t) => run_backward(t, (k - 1) as nat),
        }
    }
}

/// The nodes after a full backward pass from `root`: gradients are seeded,
/// then every node from `root` down to the first runs its local backward rule
/// once. Positions are a topological order, so each node runs after every
/// node that can add to its gradient.
pub open spec fn backward_pass<T: ValueTypeTraits>(s: Seq<ValueImpl<T>>, root: Value) -> Option<
    Seq<ValueImpl<T>>,
> {
    run_backward(seeded(s, root), (root.id + 1) as nat)
}

impl<T: ValueTypeTraits> Graph<T> {
    /// The nodes, in the order they were made.
    pub closed spec fn view(&self) -> Seq<ValueImpl<T>> {
        self.nodes@
    }

    pub open spec fn wf(&self) -> bool {
        nodes_well_formed(self@)
    }

    /// Whether `v` names a node of this graph.
    pub open spec fn contains(&self, v: Value) -> bool {
        v.id < self@.len()
    }

    /// An empty graph.
    pub fn new() -> (r: Graph<T>)
        ensures
            r@ == Seq::<ValueImpl<T>>::empty(),
            r.wf(),
    {
        Graph { nodes: Vec::new() }
    }

    /// The number of nodes.
    pub fn len(&self) -> (r: usize)
        ensures
            r == self@.len(),
    {
        self.nodes.len()
    }

    fn push_node(&mut self, node: ValueImpl<T>) -> (r: Value)
        requires
            old(self).wf(),
            node_well_formed(old(self)@.push(node), old(self)@.len() as int),
        ensures
            final(self)@ == old(self)@.push(node),
            r.id == old(self)@.len(),
            final(self).wf(),
    {
        let id = self.nodes.len();
        self.nodes.push(node);
        proof {
            let s = self@;
            assert forall|i: int| 0 <= i < s.len() implies #[trigger] node_well_formed(s, i) by {
                if i < id {
                    assert(node_well_formed(old(self)@, i));
                    assert(s[i] == old(self)@[i]);
                }
            }
        }
        Value { id }
    }
}

impl Value {
    /// A new leaf holding `value`, with the default gradient.
    pub fn from<T: ValueTypeTraits>(g: &mut Graph<T>, value: T) -> (r: Value)
        requires
            old(g).wf(),
        ensures
            leaf_added(old(g)@, final(g)@, r, value),
            final(g).wf(),
    {
        g.push_node(ValueImpl { data: value, grad: T::zero_value(), op: Operation::Leaf, prev: None })
    }

    /// A new leaf holding the default scalar.
    pub fn default<T: ValueTypeTraits>(g: &mut Graph<T>) -> (r: Value)
        requires
            old(g).wf(),
        ensures
            leaf_added(old(g)@, final(g)@, r, T::zero()),
            final(g).wf(),
    {
        let zero = T::zero_value();
        Value::from(g, zero)
    }

    /// The scalar held by this node.
    pub fn data<T: ValueTypeTraits>(&self, g: &Graph<T>) -> (r: T)
        requires
            g.contains(*self),
        ensures
            r == g@[self.id as int].data,
    {
        g.nodes[self.id].data
    }

    /// The gradient accumulated by this node.
    pub fn grad<T: ValueTypeTraits>(&self, g: &Graph<T>) -> (r: T)
        requires
            g.contains(*self),
        ensures
            r == g@[self.id as int].grad,
    {
        g.nodes[self.id].grad
    }

    /// Sets this node's gradient, as a backward pass does to seed its root or
    /// to reset the other nodes.
    pub fn set_grad<T: ValueTypeTraits>(&self, g: &mut Graph<T>, value: T)
        requires
            old(g).wf(),
            old(g).contains(*self),
        ensures
            final(g)@ == with_grad(old(g)@, *self, value),
            final(g).wf(),
    {
        let node = g.nodes[self.id];
        g.nodes.set(self.id, ValueImpl { data: node.data, grad: value, op: node.op, prev: node.prev });
        proof {
            let s = g@;
            assert forall|i: int| 0 <= i < s.len() implies #[trigger] node_well_formed(s, i) by {
                assert(node_well_formed(old(g)@, i));
            }
        }
    }

    fn combine<T: ValueTypeTraits>(g: &mut Graph<T>, op: Operation, a: &Value, b: &Value) -> (r:
        Result<Value, ArithmeticError>)
        requires
            old(g).wf(),
            old(g).contains(*a),
            old(g).contains(*b),
            op != Operation::Leaf,
        ensures
            r is Ok <==> apply_defined(op, old(g)@[a.id as int].data, old(g)@[b.id as int].data),
            r matches Ok(v) ==> node_added(old(g)@, final(g)@, v, op, *a, *b),
            r is Err ==> final(g)@ == old(g)@,
            final(g).wf(),
    {
        let x = g.nodes[a.id].data;
        let y = g.nodes[b.id].data;
        let result = match op {
            Operation::Multiply => T::checked_product(x, y),
            _ => T::checked_sum(x, y),
        };
        match result {
            Some(data) => {
                let zero = T::zero_value();
                let node = ValueImpl { data, grad: zero, op, prev: Some((*a, *b)) };
                Ok(g.push_node(node))
            },
            None => Err(ArithmeticError),
        }
    }

    /// A new node holding the sum of the two operands' scalars, whose
    /// backward rule passes its gradient to both operands unchanged.
    /// Fails, leaving the graph as it was, where the sum cannot be represented.
    pub fn add<T: ValueTypeTraits>(&self, g: &mut Graph<T>, other: &Value) -> (r: Result<
        Value,
        ArithmeticError,
    >)
        requires
            old(g).wf(),
            old(g).contains(*self),
            old(g).contains(*other),
        ensures
            r is Ok <==> T::add_defined(
                old(g)@[self.id as int].data,
                old(g)@[other.id as int].data,
            ),
            r matches Ok(v) ==> node_added(old(g)@, final(g)@, v, Operation::Add, *self, *other),
            r is Err ==> final(g)@ == old(g)@,
            final(g).wf(),
    {
        Value::combine(g, Operation::Add, self, other)
    }

    /// The consuming form of `add`, with the same result.
    pub fn add_owned<T: ValueTypeTraits>(self, g: &mut Graph<T>, other: Value) -> (r: Result<
        Value,
        ArithmeticError,
    >)
        requires
            old(g).wf(),
            old(g).contains(self),
            old(g).contains(other),
        ensures
            r is Ok <==> T::add_defined(old(g)@[self.id as int].data, old(g)@[other.id as int].data),
            r matches Ok(v) ==> node_added(old(g)@, final(g)@, v, Operation::Add, self, other),
            r is Err ==> final(g)@ == old(g)@,
            final(g).wf(),
    {
        self.add(g, &other)
    }

    /// A new node holding the product of the two operands' scalars, whose
    /// backward rule gives each operand the other's scalar times its gradient.
    /// Fails, leaving the graph as it was, where the product cannot be
    /// represented.
    pub fn mul<T: ValueTypeTraits>(&self, g: &mut Graph<T>, other: &Value) -> (r: Result<
        Value,
        ArithmeticError,
    >)
        requires
            old(g).wf(),
            old(g).contains(*self),
            old(g).contains(*other),
        ensures
            r is Ok <==> T::mul_defined(
                old(g)@[self.id as int].data,
                old(g)@[other.id as int].data,
            ),
            r matches Ok(v) ==> node_added(
                old(g)@,
                final(g)@,
                v,
                Operation::Multiply,
                *self,
                *other,
            ),
            r is Err ==> final(g)@ == old(g)@,
            final(g).wf(),
    {
        Value::combine(g, Operation::Multiply, self, other)
    }

    /// The consuming form of `mul`, with the same result.
    pub fn mul_owned<T: ValueTypeTraits>(self, g: &mut Graph<T>, other: Value) -> (r: Result<
        Value,
        ArithmeticError,
    >)
        requires
            old(g).wf(),
            old(g).contains(self),
            old(g).contains(other),
        ensures
            r is Ok <==> T::mul_defined(old(g)@[self.id as int].data, old(g)@[other.id as int].data),
            r matches Ok(v) ==> node_added(old(g)@, final(g)@, v, Operation::Multiply, self, other),
            r is Err ==> final(g)@ == old(g)@,
            final(g).wf(),
    {
        self.mul(g, &other)
    }
    /// Runs this node's local backward rule once: for a sum each operand's
    /// gradient receives this node's gradient; for a product each operand's
    /// gradient receives the other operand's scalar times this node's
    /// gradient. The left operand is served first, so an operand used twice
    /// receives both contributions. A leaf has no rule and nothing changes.
    /// Fails, leaving the graph as it was, where a step cannot be represented.
    pub fn local_backward<T: ValueTypeTraits>(&self, g: &mut Graph<T>) -> (r: Result<
        (),
        ArithmeticError,
    >)
        requires
            old(g).wf(),
            old(g).contains(*self),
        ensures
            r is Ok <==> backward_step(old(g)@, *self) is Some,
            r is Ok ==> final(g)@ == backward_step(old(g)@, *self)->0,
            r is Err ==> final(g)@ == old(g)@,
            final(g).wf(),
    {
        let node = g.nodes[self.id];
        proof {
            assert(node_well_formed(old(g)@, self.id as int));
        }
        match node.prev {
            None => Ok(()),
            Some((a, b)) => {
                let grad = node.grad;
                let na = g.nodes[a.id];
                let nb = g.nodes[b.id];
                let (ca, cb) = match node.op {
                    Operation::Multiply => {
                        let ca = match T::checked_product(nb.data, grad) {
                            Some(x) => x,
                            None => return Err(ArithmeticError),
                        };
                        let cb = match T::checked_product(na.data, grad) {
                            Some(x) => x,
                            None => return Err(ArithmeticError),
                        };
                        (ca, cb)
                    },
                    _ => (grad, grad),
                };
                let new_a = match T::checked_sum(na.grad, ca) {
                    Some(x) => x,
                    None => return Err(ArithmeticError),
                };
                let cur_b = if a.id == b.id {
                    new_a
                } else {
                    nb.grad
                };
                let new_b = match T::checked_sum(cur_b, cb) {
                    Some(x) => x,
                    None => return Err(ArithmeticError),
                };
                a.set_grad(g, new_a);
                b.set_grad(g, new_b);
                Ok(())
            },
        }
    }
    /// Runs a full backward pass from this node: seeds its gradient with the
    /// multiplicative identity, resets every other gradient to the default,
    /// then runs the local backward rule of each node from this one down to the
    /// first. Afterwards each node's gradient is the derivative of this node
    /// with respect to it. Fails where a step cannot be represented; the
    /// scalars and the structure of the graph are kept either way.
    pub fn backward<T: ValueTypeTraits>(&self, g: &mut Graph<T>) -> (r: Result<(), ArithmeticError>)
        requires
            old(g).wf(),
            old(g).contains(*self),
        ensures
            r is Ok <==> backward_pass(old(g)@, *self) is Some,
            r is Ok ==> final(g)@ == backward_pass(old(g)@, *self)->0,
            final(g)@.len() == old(g)@.len(),
            final(g).wf(),
    {
        let n = g.nodes.len();
        let zero = T::zero_value();
        let one = T::one_value();
        let mut i: usize = 0;
        while i < n
            invariant
                n == old(g)@.len(),
                g@.len() == n,
                g.wf(),
                i <= n,
                self.id < n,
                zero == T::zero(),
                one == T::one(),
                forall|j: int| 0 <= j < i ==> #[trigger] g@[j] == seeded(old(g)@, *self)[j],
                forall|j: int| i <= j < n ==> #[trigger] g@[j] == old(g)@[j],
            decreases n - i,
        {
            let v = Value { id: i };
            if i == self.id {
                v.set_grad(g, one);
            } else {
                v.set_grad(g, zero);
            }
            i = i + 1;
        }
        assert(g@ =~= seeded(old(g)@, *self));
        let mut k: usize = self.id + 1;
        while k > 0
            invariant
                n == old(g)@.len(),
                g@.len() == n,
                g.wf(),
                k <= n,
                run_backward(g@, k as nat) == backward_pass(old(g)@, *self),
            decreases k,
        {
            let v = Value { id: k - 1 };
            let ghost before = g@;
            match v.local_backward(g) {
                Ok(()) => {
                    proof {
                        lemma_backward_step_keeps_len(before, v);
                    }
                },
                Err(e) => {
                    return Err(e);
                },
            }
            k = k - 1;
        }
        Ok(())
    }
}

/// A backward step that succeeds keeps the number of nodes.
proof fn lemma_backward_step_keeps_len<T: ValueTypeTraits>(s: Seq<ValueImpl<T>>, out: Value)
    requires
        nodes_well_formed(s),
        out.id < s.len(),
        backward_step(s, out) is Some,
    ensures
        backward_step(s, out)->0.len() == s.len(),
{
    assert(node_well_formed(s, out.id as int));
}

} // verus!
