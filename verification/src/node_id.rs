//! Node identities and sets of them.

use crate::text_map::TextMap;
use vstd::prelude::*;

verus! {

/// The identity of a node: the text form of the peer identifier that the
/// transport derives from the node's public key. The networking core only
/// compares identities and uses them as keys.
#[derive(Debug)]
pub struct NodeId {
    text: String,
}

impl View for NodeId {
    type V = Seq<char>;

    closed spec fn view(&self) -> Seq<char> {
        self.text@
    }
}

impl Clone for NodeId {
    fn clone(&self) -> (copy: Self)
        ensures
            copy@ == self@,
    {
        NodeId { text: self.text.clone() }
    }
}

impl NodeId {
    /// The identity with the text form `text`.
    pub fn new(text: String) -> (id: NodeId)
        ensures
            id@ == text@,
    {
        NodeId { text }
    }

    /// The text form of the identity.
    pub fn as_string(&self) -> (text: &String)
        ensures
            text@ == self@,
    {
        &self.text
    }

    /// The text form of the identity, as an owned string.
    pub fn to_string(&self) -> (text: String)
        ensures
            text@ == self@,
    {
        self.text.clone()
    }

    /// Whether two identities are the same identity.
    pub fn same(&self, other: &NodeId) -> (equal: bool)
        ensures
            equal == (self@ == other@),
    {
        self.text == other.text
    }
}

/// A finite set of node identities, kept in the order in which they were
/// inserted.
#[derive(Debug)]
pub struct NodeSet {
    members: TextMap<()>,
}

impl View for NodeSet {
    type V = Set<Seq<char>>;

    closed spec fn view(&self) -> Set<Seq<char>> {
        self.members@.dom()
    }
}

impl NodeSet {
    /// No identity is listed twice.
    pub closed spec fn wf(&self) -> bool {
        self.members.wf()
    }

    /// The members in the order of their insertion.
    pub closed spec fn order(&self) -> Seq<Seq<char>> {
        self.members.keys()
    }

    /// The members are the listed identities, each listed once.
    pub proof fn lemma_order(&self)
        requires
            self.wf(),
        ensures
            self.order().no_duplicates(),
            self@ == self.order().to_set(),
            self@.finite(),
            self@.len() == self.order().len(),
    {
        self.members.lemma_view_of_keys();
        self.order().unique_seq_to_set();
    }

    /// The empty set.
    pub fn new() -> (set: NodeSet)
        ensures
            set.wf(),
            set@ == Set::<Seq<char>>::empty(),
            set.order() == Seq::<Seq<char>>::empty(),
    {
        let set = NodeSet { members: TextMap::new() };
        assert(set@ =~= Set::<Seq<char>>::empty());
        set
    }

    /// The number of members.
    pub fn len(&self) -> (n: usize)
        requires
            self.wf(),
        ensures
            n == self@.len(),
            n == self.order().len(),
    {
        self.members.len()
    }

    /// Whether `id` is a member.
    pub fn contains(&self, id: &NodeId) -> (present: bool)
        ensures
            present == self@.contains(id@),
    {
        self.members.contains_key(id.as_string())
    }

    /// Adds `id` to the set; a member keeps its place.
    pub fn insert(&mut self, id: NodeId)
        requires
            old(self).wf(),
        ensures
            final(self).wf(),
            final(self)@ == old(self)@.insert(id@),
            old(self)@.contains(id@) ==> final(self).order() == old(self).order(),
            !old(self)@.contains(id@) ==> final(self).order() == old(self).order().push(id@),
    {
        let ghost id_view = id@;
        self.members.insert(id.to_string(), ());
        assert(self@ =~= old(self)@.insert(id_view));
    }

    /// The member at place `i` of the order of insertion.
    pub fn get(&self, i: usize) -> (id: NodeId)
        requires
            i < self.order().len(),
        ensures
            id@ == self.order()[i as int],
            self@.contains(id@),
    {
        NodeId::new(self.members.key_at(i).clone())
    }

    /// The members as a list, in the order of their insertion.
    pub fn to_vec(&self) -> (ids: Vec<NodeId>)
        requires
            self.wf(),
        ensures
            ids@.len() == self.order().len(),
            forall|i: int| 0 <= i < ids@.len() ==> (#[trigger] ids@[i])@ == self.order()[i],
    {
        let n = self.len();
        let mut ids: Vec<NodeId> = Vec::new();
        let mut i: usize = 0;
        while i < n
            invariant
                n == self.order().len(),
                i <= n,
                ids@.len() == i,
                forall|j: int| 0 <= j < i ==> (#[trigger] ids@[j])@ == self.order()[j],
            decreases n - i,
        {
            ids.push(self.get(i));
            i += 1;
        }
        ids
    }
}

} // verus!
