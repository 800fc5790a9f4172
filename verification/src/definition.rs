//! What the library reads of a compiled process definition: the kind of
//! each node, by node id.
use vstd::prelude::*;
use crate::adapters;

verus! {

/// Kind of a node of a compiled process definition.
#[derive(Clone, Copy, Debug, PartialEq, Eq, Structural)]
pub enum NodeKind {
    Start,
    End,
    ServiceTask,
    UserTask,
    ExternalTask,
    ExclusiveGateway,
    ParallelFork,
    ParallelJoin,
}

/// A node id with its kind.
#[derive(Debug)]
pub struct NodeEntry {
    pub id: String,
    pub kind: NodeKind,
}

/// No node id occurs twice in `s`.
pub open spec fn node_ids_distinct(s: Seq<NodeEntry>) -> bool {
    forall|i: int, j: int| 0 <= i < j < s.len() ==> s[i].id@ != s[j].id@
}

/// The nodes of a compiled definition, each id once.
#[derive(Debug)]
pub struct DefinitionNodes {
    entries: Vec<NodeEntry>,
}

impl View for DefinitionNodes {
    type V = Map<Seq<char>, NodeKind>;

    closed spec fn view(&self) -> Map<Seq<char>, NodeKind> {
        Map::new(
            |k: Seq<char>| exists|i: int| 0 <= i < self.entries@.len() && self.entries@[i].id@ == k,
            |k: Seq<char>|
                self.entries@[choose|i: int|
                    0 <= i < self.entries@.len() && self.entries@[i].id@ == k].kind,
        )
    }
}

impl DefinitionNodes {
    #[verifier::type_invariant]
    closed spec fn wf(self) -> bool {
        node_ids_distinct(self.entries@)
    }

    /// The nodes listed in `entries`, in which no id occurs twice.
    pub fn new(entries: Vec<NodeEntry>) -> (r: DefinitionNodes)
        requires
            node_ids_distinct(entries@),
        ensures
            forall|k: Seq<char>|
                r@.dom().contains(k) <==> exists|i: int|
                    0 <= i < entries@.len() && (#[trigger] entries@[i]).id@ == k,
            forall|i: int| 0 <= i < entries@.len() ==> r@[#[trigger] entries@[i].id@] == entries@[i].kind,
    {
        let r = DefinitionNodes { entries };
        assert forall|i: int| 0 <= i < r.entries@.len() implies r@[#[trigger] r.entries@[i].id@]
            == r.entries@[i].kind by {
            let k = r.entries@[i].id@;
            let j = choose|j: int| 0 <= j < r.entries@.len() && r.entries@[j].id@ == k;
            assert(j == i);
        }
        r
    }

    /// The nodes of a compiled definition: each node id with its kind.
    pub fn from_definition(def: &bpm_engine_core::ProcessDefinition) -> (r: DefinitionNodes)
        ensures
            r@ == adapters::spec_definition_node_kinds(*def),
    {
        let entries = adapters::definition_nodes(def);
        let ghost es = entries@;
        let r = DefinitionNodes::new(entries);
        let ghost m = adapters::spec_definition_node_kinds(*def);
        assert forall|k: Seq<char>| r@.dom().contains(k) <==> m.dom().contains(k) by {
            if m.dom().contains(k) {
                let i = choose|i: int| 0 <= i < es.len() && (#[trigger] es[i]).id@ == k;
                assert(r@.dom().contains(es[i].id@));
            }
        }
        assert forall|k: Seq<char>| #[trigger] r@.dom().contains(k) implies r@[k] == m[k] by {
            let i = choose|i: int| 0 <= i < es.len() && (#[trigger] es[i]).id@ == k;
            assert(r@[es[i].id@] == es[i].kind);
        }
        assert(r@ =~= m);
        r
    }

    /// The kind of the node with id `node_id`, if the definition has one.
    pub fn kind_of(&self, node_id: &str) -> (r: Option<NodeKind>)
        ensures
            match r {
                Some(k) => self@.dom().contains(node_id@) && self@[node_id@] == k,
                None => !self@.dom().contains(node_id@),
            },
    {
        proof {
            use_type_invariant(self);
        }
        let mut i: usize = 0;
        while i < self.entries.len()
            invariant
                i <= self.entries@.len(),
                node_ids_distinct(self.entries@),
                forall|j: int| 0 <= j < i ==> self.entries@[j].id@ != node_id@,
            decreases self.entries@.len() - i,
        {
            if crate::text::text_eq(self.entries[i].id.as_str(), node_id) {
                proof {
                    let j = choose|j: int|
                        0 <= j < self.entries@.len() && self.entries@[j].id@ == node_id@;
                    assert(j == i);
                }
                return Some(self.entries[i].kind);
            }
            i = i + 1;
        }
        None
    }

    /// Whether the node with id `node_id` exists and is a user task.
    pub fn is_user_task(&self, node_id: &str) -> (r: bool)
        ensures
            r == (self@.dom().contains(node_id@) && self@[node_id@] == NodeKind::UserTask),
    {
        match self.kind_of(node_id) {
            Some(NodeKind::UserTask) => true,
            _ => false,
        }
    }
}

} // verus!
