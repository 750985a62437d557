use vstd::prelude::*;

verus! {

/// The chain of nodes met when walking parent links from `node` towards
/// `root`: it starts at `node` and ends at `root`, or at the topmost node
/// when `root` is not an ancestor. Each step spends one unit of `fuel`;
/// `None` when a node lies outside the arena or the fuel runs out (a cycle).
pub open spec fn ancestry(parents: Seq<Option<usize>>, node: int, root: int, fuel: nat) -> Option<
    Seq<usize>,
>
    decreases fuel,
{
    if !(0 <= node < parents.len()) {
        None
    } else if node == root {
        Some(seq![node as usize])
    } else {
        match parents[node] {
            None => Some(seq![node as usize]),
            Some(p) => if fuel == 0 {
                None
            } else {
                match ancestry(parents, p as int, root, (fuel - 1) as nat) {
                    Some(rest) => Some(seq![node as usize] + rest),
                    None => None,
                }
            },
        }
    }
}

/// `chain` read back to front.
pub open spec fn reversed(chain: Seq<usize>) -> Seq<usize> {
    Seq::new(chain.len(), |i: int| chain[chain.len() - 1 - i])
}

/// Puts `prefix` in front of a chain that may be missing.
pub open spec fn prefixed(prefix: Seq<usize>, chain: Option<Seq<usize>>) -> Option<Seq<usize>> {
    match chain {
        Some(rest) => Some(prefix + rest),
        None => None,
    }
}

/// An arena of scene nodes addressed by index, each with an optional parent.
pub struct NodeTree {
    parents: Vec<Option<usize>>,
}

impl NodeTree {
    /// The parent link of every node, by index.
    pub closed spec fn parents(&self) -> Seq<Option<usize>> {
        self.parents@
    }

    /// The ancestry of `node` towards `root`, as `ancestry_list` returns it.
    pub open spec fn ancestry_of(&self, node: int, root: int) -> Option<Seq<usize>> {
        ancestry(self.parents(), node, root, self.parents().len())
    }

    /// An arena whose node `i` has parent `parents[i]`.
    pub fn new(parents: Vec<Option<usize>>) -> (r: NodeTree)
        ensures
            r.parents() == parents@,
    {
        NodeTree { parents }
    }

    /// Number of nodes in the arena.
    pub fn len(&self) -> (r: usize)
        ensures
            r == self.parents().len(),
    {
        self.parents.len()
    }

    /// The nodes from `node` up to the skeleton root `root`, bone first.
    pub fn ancestry_list(&self, node: usize, root: usize) -> (r: Option<Vec<usize>>)
        ensures
            match r {
                Some(v) => self.ancestry_of(node as int, root as int) == Some(v@),
                None => self.ancestry_of(node as int, root as int) is None,
            },
    {
        let mut acc: Vec<usize> = Vec::new();
        let mut cur: usize = node;
        let mut fuel: usize = self.parents.len();
        loop
            invariant
                self.ancestry_of(node as int, root as int) == prefixed(
                    acc@,
                    ancestry(self.parents(), cur as int, root as int, fuel as nat),
                ),
            decreases fuel,
        {
            if cur >= self.parents.len() {
                return None;
            }
            if cur == root {
                acc.push(cur);
                return Some(acc);
            }
            match self.parents[cur] {
                None => {
                    acc.push(cur);
                    return Some(acc);
                },
                Some(p) => {
                    if fuel == 0 {
                        return None;
                    }
                    let ghost old_acc = acc@;
                    acc.push(cur);
                    proof {
                        match ancestry(self.parents(), p as int, root as int, (fuel - 1) as nat) {
                            Some(rest) => {
                                assert(old_acc + (seq![cur] + rest) =~= acc@ + rest);
                            },
                            None => {},
                        }
                    }
                    cur = p;
                    fuel = fuel - 1;
                },
            }
        }
    }

    /// The nodes from the skeleton root `root` down to `node`: the order in
    /// which their local transforms compose into the bone's skeleton-space
    /// transform.
    pub fn skeleton_chain(&self, node: usize, root: usize) -> (r: Option<Vec<usize>>)
        ensures
            match r {
                Some(v) => match self.ancestry_of(node as int, root as int) {
                    Some(a) => v@ == reversed(a),
                    None => false,
                },
                None => self.ancestry_of(node as int, root as int) is None,
            },
    {
        match self.ancestry_list(node, root) {
            None => None,
            Some(up) => {
                let mut down: Vec<usize> = Vec::new();
                let mut i: usize = up.len();
                while i > 0
                    invariant
                        i <= up@.len(),
                        down@.len() == up@.len() - i,
                        forall|k: int| 0 <= k < down@.len() ==> down@[k] == up@[up@.len() - 1 - k],
                    decreases i,
                {
                    i = i - 1;
                    down.push(up[i]);
                }
                assert(down@ =~= reversed(up@));
                Some(down)
            },
        }
    }
}

} // verus!
