//! The content tree: servable resources with their children by name, and the state that the
//! request handlers share.

use crate::media::HTML_CONTENT_TYPE;
use crate::outside::{deflate, deflated};
use vstd::prelude::*;

verus! {

/// What a node is, as mathematics: its payloads, labels and children by name.
pub struct NodeView {
    pub content: Seq<u8>,
    pub compressed: Seq<u8>,
    pub content_type: Seq<char>,
    pub etag: Seq<char>,
    pub children: Map<Seq<char>, NodeView>,
}

impl NodeView {
    /// A node without children whose compressed payload is the deflated form of `content`.
    pub open spec fn leaf(content: Seq<u8>, content_type: Seq<char>, etag: Seq<char>) -> NodeView {
        NodeView {
            content,
            compressed: deflated(content),
            content_type,
            etag,
            children: Map::empty(),
        }
    }

    /// The same node with `child` put under `name`, in place of what was there.
    pub open spec fn with_child(self, name: Seq<char>, child: NodeView) -> NodeView {
        NodeView { children: self.children.insert(name, child), ..self }
    }

    /// Here and in every node below, the compressed payload is the deflated form of the plain
    /// one.
    pub open spec fn well_formed(self) -> bool
        decreases self,
    {
        &&& self.compressed == deflated(self.content)
        &&& forall|name: Seq<char>| #[trigger]
            self.children.contains_key(name) ==> self.children[name].well_formed()
    }
}

/// A named child of a node.
struct Child {
    name: String,
    node: Node,
}

/// A servable resource: its payload in plain and compressed form, its media type, its identity
/// tag, and the resources below it.
pub struct Node {
    content: Vec<u8>,
    compressed: Vec<u8>,
    content_type: String,
    etag: String,
    entries: Vec<Child>,
}

/// The name-to-node mapping that a list of entries stands for: a later entry replaces an earlier
/// one of the same name.
spec fn mapping_of(entries: Seq<Child>) -> Map<Seq<char>, NodeView>
    decreases entries,
{
    if entries.len() == 0 {
        Map::empty()
    } else {
        mapping_of(entries.drop_last()).insert(entries.last().name@, entries.last().node@)
    }
}

/// No two entries have the same name.
spec fn distinct_names(entries: Seq<Child>) -> bool {
    forall|i: int, j: int|
        0 <= i < j < entries.len() ==> (#[trigger] entries[i]).name@ != (
        #[trigger] entries[j]).name@
}

/// One step of `mapping_of`, spelled out.
proof fn lemma_mapping_step(entries: Seq<Child>)
    ensures
        entries.len() == 0 ==> mapping_of(entries) == Map::<Seq<char>, NodeView>::empty(),
        entries.len() > 0 ==> mapping_of(entries) == mapping_of(entries.drop_last()).insert(
            entries.last().name@,
            entries.last().node@,
        ),
{
}

/// Names stay distinct when the last entry is left out.
proof fn lemma_distinct_front(entries: Seq<Child>)
    requires
        distinct_names(entries),
        entries.len() > 0,
    ensures
        distinct_names(entries.drop_last()),
{
    let front = entries.drop_last();
    assert forall|a: int, b: int| 0 <= a < b < front.len() implies (#[trigger] front[a]).name@ != (
    #[trigger] front[b]).name@ by {
        assert(front[a] == entries[a] && front[b] == entries[b]);
    }
}

/// The mapping has a name exactly where an entry has it.
proof fn lemma_mapping_keys(entries: Seq<Child>, name: Seq<char>)
    ensures
        mapping_of(entries).contains_key(name) <==> exists|i: int|
            0 <= i < entries.len() && (#[trigger] entries[i]).name@ == name,
    decreases entries.len(),
{
    lemma_mapping_step(entries);
    if entries.len() > 0 {
        let front = entries.drop_last();
        lemma_mapping_keys(front, name);
        if mapping_of(entries).contains_key(name) {
            if entries.last().name@ == name {
                assert(entries[entries.len() - 1].name@ == name);
            } else {
                let i = choose|i: int| 0 <= i < front.len() && (#[trigger] front[i]).name@ == name;
                assert(entries[i].name@ == name);
            }
        } else {
            assert forall|i: int| 0 <= i < entries.len() implies (#[trigger] entries[i]).name@
                != name by {
                if i < entries.len() - 1 {
                    assert(front[i].name@ != name);
                }
            }
        }
    }
}

/// Where names are distinct, the mapping holds each entry's node under its name.
proof fn lemma_mapping_value(entries: Seq<Child>, i: int)
    requires
        distinct_names(entries),
        0 <= i < entries.len(),
    ensures
        mapping_of(entries).contains_key(entries[i].name@),
        mapping_of(entries)[entries[i].name@] == entries[i].node@,
    decreases entries.len(),
{
    let front = entries.drop_last();
    lemma_mapping_step(entries);
    if i < entries.len() - 1 {
        assert(front[i] == entries[i]);
        assert(entries[i].name@ != entries[entries.len() - 1].name@);
        lemma_distinct_front(entries);
        lemma_mapping_value(front, i);
    }
}

/// Replacing an entry by one of the same name replaces its node in the mapping.
proof fn lemma_mapping_update(entries: Seq<Child>, i: int, child: Child)
    requires
        distinct_names(entries),
        0 <= i < entries.len(),
        entries[i].name@ == child.name@,
    ensures
        distinct_names(entries.update(i, child)),
        mapping_of(entries.update(i, child)) == mapping_of(entries).insert(
            child.name@,
            child.node@,
        ),
    decreases entries.len(),
{
    let after = entries.update(i, child);
    let front = entries.drop_last();
    assert forall|a: int, b: int| 0 <= a < b < after.len() implies (#[trigger] after[a]).name@
        != (#[trigger] after[b]).name@ by {
        assert(after[a].name@ == entries[a].name@ && after[b].name@ == entries[b].name@);
    }
    lemma_mapping_step(entries);
    lemma_mapping_step(after);
    if i == entries.len() - 1 {
        assert(after.drop_last() =~= front);
        assert(mapping_of(after) =~= mapping_of(entries).insert(child.name@, child.node@));
    } else {
        lemma_distinct_front(entries);
        assert(front[i] == entries[i]);
        lemma_mapping_update(front, i, child);
        assert(after.drop_last() =~= front.update(i, child));
        assert(after.last() == entries.last());
        assert(entries[i].name@ != entries[entries.len() - 1].name@);
        assert(mapping_of(after) =~= mapping_of(entries).insert(child.name@, child.node@));
    }
}

impl View for Node {
    type V = NodeView;

    closed spec fn view(&self) -> NodeView
        decreases self,
    {
        NodeView {
            content: self.content@,
            compressed: self.compressed@,
            content_type: self.content_type@,
            etag: self.etag@,
            children: mapping_of(self.entries@),
        }
    }
}

impl Node {
    #[verifier::type_invariant]
    spec fn inv(self) -> bool {
        &&& self@.well_formed()
        &&& distinct_names(self.entries@)
    }

    /// A node without children that holds `content`, compressed on the spot.
    pub fn new(content: Vec<u8>, content_type: String, etag: String) -> (node: Node)
        ensures
            node@ == NodeView::leaf(content@, content_type@, etag@),
    {
        let compressed = deflate(content.as_slice());
        Node { content, compressed, content_type, etag, entries: Vec::new() }
    }

    /// The plain payload.
    pub fn content(&self) -> (bytes: &Vec<u8>)
        ensures
            bytes@ == self@.content,
    {
        &self.content
    }

    /// The payload in deflated form, as computed when the node was made.
    pub fn compressed(&self) -> (bytes: &Vec<u8>)
        ensures
            bytes@ == self@.compressed,
            bytes@ == deflated(self@.content),
            self@.well_formed(),
    {
        proof {
            use_type_invariant(self);
        }
        &self.compressed
    }

    /// The media type.
    pub fn content_type(&self) -> (label: &String)
        ensures
            label@ == self@.content_type,
    {
        &self.content_type
    }

    /// The identity tag.
    pub fn etag(&self) -> (tag: &String)
        ensures
            tag@ == self@.etag,
    {
        &self.etag
    }

    /// How many children the node has.
    pub fn child_count(&self) -> (count: usize)
        ensures
            count == self@.children.len(),
            self@.children.dom().finite(),
    {
        proof {
            use_type_invariant(self);
            lemma_mapping_len(self.entries@);
        }
        self.entries.len()
    }

    /// The child under `name`, if there is one.
    #[verifier::loop_isolation(false)]
    pub fn get_child(&self, name: &str) -> (found: Option<&Node>)
        ensures
            self@.well_formed(),
            match found {
                Some(child) => self@.children.contains_key(name@) && child@
                    == self@.children[name@],
                None => !self@.children.contains_key(name@),
            },
    {
        proof {
            use_type_invariant(self);
        }
        let key = name.to_owned();
        let mut i: usize = 0;
        while i < self.entries.len()
            invariant
                i <= self.entries@.len(),
                forall|j: int| 0 <= j < i ==> (#[trigger] self.entries@[j]).name@ != name@,
            decreases self.entries@.len() - i,
        {
            if self.entries[i].name == key {
                proof {
                    lemma_mapping_value(self.entries@, i as int);
                }
                return Some(&self.entries[i].node);
            }
            i += 1;
        }
        proof {
            lemma_mapping_keys(self.entries@, name@);
        }
        None
    }

    /// The node with `node` put under `name`, in place of any child that had the name.
    #[verifier::loop_isolation(false)]
    pub fn with_child(self, name: String, node: Node) -> (out: Node)
        ensures
            out@ == self@.with_child(name@, node@),
    {
        proof {
            use_type_invariant(&self);
            use_type_invariant(&node);
        }
        let ghost before = self.entries@;
        let ghost whole = self@;
        let Node { content, compressed, content_type, etag, entries } = self;
        let mut entries = entries;
        let mut i: usize = 0;
        while i < entries.len()
            invariant
                i <= entries@.len(),
                entries@ == before,
                forall|j: int| 0 <= j < i ==> (#[trigger] entries@[j]).name@ != name@,
            decreases entries@.len() - i,
        {
            if entries[i].name == name {
                let child = Child { name, node };
                proof {
                    lemma_mapping_update(before, i as int, child);
                    lemma_children_well_formed(whole.children, child.name@, child.node@);
                }
                entries.set(i, child);
                return Node { content, compressed, content_type, etag, entries };
            }
            i += 1;
        }
        let child = Child { name, node };
        proof {
            let after = before.push(child);
            assert(after.drop_last() =~= before);
            lemma_mapping_step(after);
            assert forall|a: int, b: int| 0 <= a < b < after.len() implies (
            #[trigger] after[a]).name@ != (#[trigger] after[b]).name@ by {
                assert(after[a] == before[a]);
                if b < before.len() {
                    assert(after[b] == before[b]);
                }
            }
            lemma_children_well_formed(whole.children, child.name@, child.node@);
        }
        entries.push(child);
        Node { content, compressed, content_type, etag, entries }
    }
}

/// Every node of the mapping is well formed.
spec fn all_well_formed(children: Map<Seq<char>, NodeView>) -> bool {
    forall|k: Seq<char>| #[trigger] children.contains_key(k) ==> children[k].well_formed()
}

/// Putting a well-formed child among well-formed children leaves them well formed.
proof fn lemma_children_well_formed(
    children: Map<Seq<char>, NodeView>,
    name: Seq<char>,
    child: NodeView,
)
    requires
        all_well_formed(children),
        child.well_formed(),
    ensures
        all_well_formed(children.insert(name, child)),
{
    let after = children.insert(name, child);
    assert forall|k: Seq<char>| #[trigger] after.contains_key(k) implies after[k].well_formed() by {
        if k != name {
            assert(children.contains_key(k));
        }
    }
}

/// Where names are distinct, the mapping has as many names as there are entries.
proof fn lemma_mapping_len(entries: Seq<Child>)
    requires
        distinct_names(entries),
    ensures
        mapping_of(entries).dom().finite(),
        mapping_of(entries).len() == entries.len(),
    decreases entries.len(),
{
    lemma_mapping_step(entries);
    if entries.len() > 0 {
        let front = entries.drop_last();
        lemma_distinct_front(entries);
        lemma_mapping_len(front);
        lemma_mapping_keys(front, entries.last().name@);
        if mapping_of(front).contains_key(entries.last().name@) {
            let name = entries.last().name@;
            let i = choose|i: int| 0 <= i < front.len() && (#[trigger] front[i]).name@ == name;
            assert(front[i] == entries[i]);
            assert(entries[i].name@ != entries[entries.len() - 1].name@);
        }
    }
}

/// What the shared state is, as mathematics.
pub struct SharedStateView {
    pub root: NodeView,
    pub not_found: NodeView,
}

impl SharedStateView {
    /// Both trees are well formed, and the not-found page is an HTML page with a body.
    pub open spec fn well_formed(self) -> bool {
        &&& self.root.well_formed()
        &&& self.not_found.well_formed()
        &&& self.not_found.content.len() > 0
        &&& self.not_found.content_type == HTML_CONTENT_TYPE@
    }
}

/// What every request handler reads: the content tree, and the not-found page, which no path
/// leads to.
pub struct SharedState {
    root: Node,
    not_found: Node,
}

impl View for SharedState {
    type V = SharedStateView;

    closed spec fn view(&self) -> SharedStateView {
        SharedStateView { root: self.root@, not_found: self.not_found@ }
    }
}

impl SharedState {
    #[verifier::type_invariant]
    spec fn inv(self) -> bool {
        &&& self.not_found@.content.len() > 0
        &&& self.not_found@.content_type == HTML_CONTENT_TYPE@
    }

    /// The state made of a tree and a not-found page; `None` unless that page is an HTML page
    /// with a body.
    pub fn new(root: Node, not_found: Node) -> (state: Option<SharedState>)
        ensures
            match state {
                Some(s) => s@ == (SharedStateView { root: root@, not_found: not_found@ })
                    && s@.well_formed(),
                None => not_found@.content.len() == 0 || not_found@.content_type
                    != HTML_CONTENT_TYPE@,
            },
    {
        proof {
            use_type_invariant(&root);
            use_type_invariant(&not_found);
        }
        if not_found.content.len() == 0 || not_found.content_type != HTML_CONTENT_TYPE.to_owned() {
            None
        } else {
            Some(SharedState { root, not_found })
        }
    }

    /// The state made of a tree and a not-found page that is known to be an HTML page with a
    /// body.
    pub(crate) fn assemble(root: Node, not_found: Node) -> (state: SharedState)
        requires
            not_found@.content.len() > 0,
            not_found@.content_type == HTML_CONTENT_TYPE@,
        ensures
            state@ == (SharedStateView { root: root@, not_found: not_found@ }),
            state@.well_formed(),
    {
        proof {
            use_type_invariant(&root);
            use_type_invariant(&not_found);
        }
        SharedState { root, not_found }
    }

    /// The root of the content tree.
    pub fn root(&self) -> (node: &Node)
        ensures
            node@ == self@.root,
            self@.well_formed(),
    {
        proof {
            use_type_invariant(self);
            use_type_invariant(&self.root);
            use_type_invariant(&self.not_found);
        }
        &self.root
    }

    /// The not-found page.
    pub fn not_found(&self) -> (node: &Node)
        ensures
            node@ == self@.not_found,
            self@.well_formed(),
    {
        proof {
            use_type_invariant(self);
            use_type_invariant(&self.root);
            use_type_invariant(&self.not_found);
        }
        &self.not_found
    }
}

} // verus!
