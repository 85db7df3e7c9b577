//! Execution plans shared between host and modules: function calls and the
//! dependency graph they run in.

use vstd::prelude::*;

verus! {

/// One function call of a plan.
#[derive(Debug, Clone)]
pub struct FunctionCall {
    pub name: String,
    pub args: String,
}

/// One node of a plan: an id and the call it performs.
#[derive(Debug, Clone)]
pub struct Node {
    pub id: u64,
    pub func: FunctionCall,
}

/// A dependency graph under construction: nodes in creation order and
/// edges `(predecessor, successor, edge id)`. Ids start at one, so id zero
/// marks an edge without a predecessor.
#[derive(Debug)]
pub struct Dag {
    pub node_num: u64,
    pub edge_num: u64,
    pub nodes: Vec<Node>,
    pub edges: Vec<(u64, u64, u64)>,
}

/// A finished plan as handed to a runner.
#[derive(Debug)]
pub struct DagRunner {
    pub nodes: Vec<Node>,
    pub edges: Vec<(u64, u64, u64)>,
}

impl Dag {
    /// An empty graph.
    pub fn new() -> (r: Self)
        ensures
            r.node_num == 0,
            r.edge_num == 0,
            r.nodes@ =~= Seq::<Node>::empty(),
            r.edges@ =~= Seq::<(u64, u64, u64)>::empty(),
    {
        Dag { node_num: 0, edge_num: 0, nodes: Vec::new(), edges: Vec::new() }
    }

    /// Adds a node for one call and returns it; ids count up from one.
    pub fn new_node(self: &mut Self, name: &str, args: &str) -> (r: Node)
        requires
            old(self).node_num < u64::MAX,
        ensures
            final(self).node_num == old(self).node_num + 1,
            r.id == final(self).node_num,
            r.func.name@ == name@,
            r.func.args@ == args@,
            final(self).nodes@.len() == old(self).nodes@.len() + 1,
            final(self).nodes@.last().id == r.id,
            final(self).nodes@.last().func.name@ == name@,
            final(self).nodes@.last().func.args@ == args@,
            final(self).nodes@.subrange(0, old(self).nodes@.len() as int) == old(self).nodes@,
            final(self).edges@ == old(self).edges@,
            final(self).edge_num == old(self).edge_num,
    {
        self.node_num = self.node_num + 1;
        let node = Node {
            id: self.node_num,
            func: FunctionCall { name: name.to_owned(), args: args.to_owned() },
        };
        let node2 = Node {
            id: node.id,
            func: FunctionCall { name: name.to_owned(), args: args.to_owned() },
        };
        self.nodes.push(node);
        proof {
            assert(self.nodes@.subrange(0, old(self).nodes@.len() as int) =~= old(self).nodes@);
        }
        node2
    }

    /// Records that `succ` depends on `prec`.
    pub fn add_dependency(self: &mut Self, prec: &Node, succ: &Node)
        requires
            old(self).edge_num < u64::MAX,
        ensures
            final(self).edge_num == old(self).edge_num + 1,
            final(self).edges@ == old(self).edges@.push(
                (prec.id, succ.id, (old(self).edge_num + 1) as u64),
            ),
            final(self).nodes@ == old(self).nodes@,
            final(self).node_num == old(self).node_num,
    {
        self.edge_num = self.edge_num + 1;
        self.edges.push((prec.id, succ.id, self.edge_num));
    }

    /// Records that `node` depends on nothing.
    pub fn add_independent(self: &mut Self, node: &Node)
        requires
            old(self).edge_num < u64::MAX,
        ensures
            final(self).edge_num == old(self).edge_num + 1,
            final(self).edges@ == old(self).edges@.push((0u64, node.id, (old(self).edge_num + 1) as u64)),
            final(self).nodes@ == old(self).nodes@,
            final(self).node_num == old(self).node_num,
    {
        self.edge_num = self.edge_num + 1;
        self.edges.push((0, node.id, self.edge_num));
    }
}

} // verus!
