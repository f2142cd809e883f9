//! Views of MIB nodes and of their textual conventions, and the cursor that
//! walks the children of a node through the native library's "first child" /
//! "next child" primitives.
use vstd::prelude::*;
use crate::codes::{access_of, basetype_of, status_of, SmiAccess, SmiBasetype, SmiStatus};
use crate::kind::{kind_label, SmiNodeKind};
use crate::text::{dotted, oid_to_dotted};

verus! {

/// One node of the MIB tree, as the native library describes it.
///
/// `handle` identifies the node to the native library; the library itself
/// never reads it.
#[derive(Debug, Clone)]
pub struct SmiNode {
    pub handle: usize,
    pub name: String,
    pub oid: Vec<u32>,
    pub access: SmiAccess,
    pub status: SmiStatus,
    pub format: String,
    pub units: String,
    pub description: String,
    pub reference: String,
    pub kind: SmiNodeKind,
}

/// The named datatype that a node is declared with.
#[derive(Debug, Clone)]
pub struct TextualConvention {
    pub name: String,
    pub basetype: SmiBasetype,
    pub format: String,
    pub units: String,
    pub status: SmiStatus,
    pub description: String,
    pub reference: String,
}

/// The one-line description of a node: `Node<oid>/kinds: name, description`.
pub open spec fn node_line(
    oid: Seq<u32>,
    kind_bits: u32,
    name: Seq<char>,
    description: Seq<char>,
) -> Seq<char> {
    "Node<"@ + dotted(oid) + ">/"@ + kind_label(kind_bits) + ": "@ + name + ", "@ + description
}

impl SmiNode {
    /// Builds a node view from the native node's fields, decoding its access
    /// and status codes and its kind word.
    pub fn from_fields(
        handle: usize,
        name: String,
        oid: Vec<u32>,
        access_code: u32,
        status_code: u32,
        format: String,
        units: String,
        description: String,
        reference: String,
        kind_word: u32,
    ) -> (r: SmiNode)
        ensures
            r.handle == handle,
            r.name@ == name@,
            r.oid@ == oid@,
            r.access == access_of(access_code),
            r.status == status_of(status_code),
            r.format@ == format@,
            r.units@ == units@,
            r.description@ == description@,
            r.reference@ == reference@,
            r.kind.bits == kind_word & SmiNodeKind::ANY,
    {
        SmiNode {
            handle,
            name,
            oid,
            access: SmiAccess::from_code(access_code),
            status: SmiStatus::from_code(status_code),
            format,
            units,
            description,
            reference,
            kind: SmiNodeKind::from_bits_truncate(kind_word),
        }
    }

    /// A fresh cursor over the children of this node, oldest first.
    pub fn children(&self) -> (r: SmiNodeIterator)
        ensures
            r.state == CursorState::Start(self.handle),
    {
        SmiNodeIterator { state: CursorState::Start(self.handle) }
    }

    /// The one-line description of this node.
    pub fn describe(&self) -> (r: String)
        ensures
            r@ == node_line(self.oid@, self.kind.bits, self.name@, self.description@),
    {
        proof {
            reveal_strlit("Node<");
            reveal_strlit(">/");
            reveal_strlit(": ");
            reveal_strlit(", ");
        }
        let mut r = String::from_str("Node<");
        let oid = oid_to_dotted(self.oid.as_slice());
        r.append(oid.as_str());
        r.append(">/");
        let label = self.kind.label();
        r.append(label.as_str());
        r.append(": ");
        r.append(self.name.as_str());
        r.append(", ");
        r.append(self.description.as_str());
        r
    }
}

impl TextualConvention {
    /// Builds a textual-convention view from the native type's fields,
    /// decoding its base-type and status codes.
    pub fn from_fields(
        name: String,
        basetype_code: u32,
        format: String,
        units: String,
        status_code: u32,
        description: String,
        reference: String,
    ) -> (r: TextualConvention)
        ensures
            r.name@ == name@,
            r.basetype == basetype_of(basetype_code),
            r.format@ == format@,
            r.units@ == units@,
            r.status == status_of(status_code),
            r.description@ == description@,
            r.reference@ == reference@,
    {
        TextualConvention {
            name,
            basetype: SmiBasetype::from_code(basetype_code),
            format,
            units,
            status: SmiStatus::from_code(status_code),
            description,
            reference,
        }
    }
}

/// A request to the native library's child traversal.
#[derive(Debug, Copy, Clone, PartialEq, Eq, Structural)]
pub enum ChildQuery {
    /// The first child of the node.
    FirstChild(usize),
    /// The next sibling of the node.
    NextSibling(usize),
}

/// Where a walk over the children of a node stands.
#[derive(Debug, Copy, Clone, PartialEq, Eq, Structural)]
pub enum CursorState {
    /// Nothing asked yet; the parent's handle.
    Start(usize),
    /// The handle of the child yielded last.
    After(usize),
    /// The walk has ended and yields nothing more.
    Exhausted,
}

/// The request that a state makes next, if any.
pub open spec fn query_of(s: CursorState) -> Option<ChildQuery> {
    match s {
        CursorState::Start(p) => Some(ChildQuery::FirstChild(p)),
        CursorState::After(c) => Some(ChildQuery::NextSibling(c)),
        CursorState::Exhausted => None,
    }
}

/// The state after the native library answered the pending request.
pub open spec fn step(s: CursorState, answer: Option<usize>) -> CursorState {
    match s {
        CursorState::Exhausted => CursorState::Exhausted,
        _ => match answer {
            Some(c) => CursorState::After(c),
            None => CursorState::Exhausted,
        },
    }
}

/// A single-pass, forward-only walk over the children of one node.
///
/// The caller asks `pending` which native request to make, makes it, and
/// hands the answer to `advance`, which yields the next child. Once a request
/// finds nothing the walk is over for good.
pub struct SmiNodeIterator {
    pub state: CursorState,
}

impl SmiNodeIterator {
    /// The native request that the next child comes from; `None` once the
    /// walk has ended.
    pub fn pending(&self) -> (r: Option<ChildQuery>)
        ensures
            r == query_of(self.state),
    {
        match self.state {
            CursorState::Start(p) => Some(ChildQuery::FirstChild(p)),
            CursorState::After(c) => Some(ChildQuery::NextSibling(c)),
            CursorState::Exhausted => None,
        }
    }

    /// Takes the native answer to the pending request and returns the child
    /// it yields, if any.
    pub fn advance(&mut self, answer: Option<usize>) -> (r: Option<usize>)
        ensures
            final(self).state == step(old(self).state, answer),
            r == (if old(self).state is Exhausted {
                None
            } else {
                answer
            }),
    {
        match self.state {
            CursorState::Exhausted => None,
            _ => {
                match answer {
                    Some(c) => {
                        self.state = CursorState::After(c);
                    },
                    None => {
                        self.state = CursorState::Exhausted;
                    },
                }
                answer
            },
        }
    }

    /// Whether the walk has ended.
    pub fn is_exhausted(&self) -> (r: bool)
        ensures
            r == (self.state is Exhausted),
    {
        match self.state {
            CursorState::Exhausted => true,
            _ => false,
        }
    }
}

/// What a tree, given by its "first child" and "next sibling" functions,
/// answers to a request.
pub open spec fn tree_answer(
    q: ChildQuery,
    first: spec_fn(usize) -> Option<usize>,
    next: spec_fn(usize) -> Option<usize>,
) -> Option<usize> {
    match q {
        ChildQuery::FirstChild(p) => first(p),
        ChildQuery::NextSibling(c) => next(c),
    }
}

/// The children that a walk from `s` yields when a tree answers its
/// requests, taking at most `fuel` steps.
pub open spec fn walk(
    s: CursorState,
    first: spec_fn(usize) -> Option<usize>,
    next: spec_fn(usize) -> Option<usize>,
    fuel: nat,
) -> Seq<usize>
    decreases fuel,
{
    if fuel == 0 {
        Seq::empty()
    } else {
        match query_of(s) {
            None => Seq::empty(),
            Some(q) => match tree_answer(q, first, next) {
                None => Seq::empty(),
                Some(c) => seq![c] + walk(step(s, Some(c)), first, next, (fuel - 1) as nat),
            },
        }
    }
}

/// `kids` is the list of children of `p` in the tree: the first child of `p`
/// heads it, each one's next sibling follows it, and the last has none.
pub open spec fn is_child_list(
    p: usize,
    kids: Seq<usize>,
    first: spec_fn(usize) -> Option<usize>,
    next: spec_fn(usize) -> Option<usize>,
) -> bool {
    &&& (kids.len() == 0 ==> first(p) is None)
    &&& (kids.len() > 0 ==> first(p) == Some(kids[0]))
    &&& forall|i: int| 0 <= i < kids.len() - 1 ==> #[trigger] next(kids[i]) == Some(kids[i + 1])
    &&& (kids.len() > 0 ==> next(kids.last()) is None)
}

proof fn lemma_walk_suffix(
    p: usize,
    kids: Seq<usize>,
    first: spec_fn(usize) -> Option<usize>,
    next: spec_fn(usize) -> Option<usize>,
    i: int,
    fuel: nat,
)
    requires
        is_child_list(p, kids, first, next),
        0 <= i < kids.len(),
        fuel >= kids.len() - i,
    ensures
        walk(CursorState::After(kids[i]), first, next, fuel) =~= kids.subrange(i + 1, kids.len() as int),
    decreases kids.len() - i,
{
    if i == kids.len() - 1 {
        assert(next(kids.last()) is None);
    } else {
        assert(next(kids[i]) == Some(kids[i + 1]));
        lemma_walk_suffix(p, kids, first, next, i + 1, (fuel - 1) as nat);
    }
}

proof fn lemma_child_list_distinct(
    p: usize,
    kids: Seq<usize>,
    first: spec_fn(usize) -> Option<usize>,
    next: spec_fn(usize) -> Option<usize>,
)
    requires
        is_child_list(p, kids, first, next),
    ensures
        kids.no_duplicates(),
{
    assert forall|i: int, j: int| 0 <= i < kids.len() && 0 <= j < kids.len() && i != j implies kids[i]
        != kids[j] by {
        if kids[i] == kids[j] {
            let (a, b) = if i < j {
                (i, j)
            } else {
                (j, i)
            };
            lemma_equal_entries_stay_equal(p, kids, first, next, a, b, kids.len() - 1 - b);
            let k = kids.len() - 1 - b;
            assert(next(kids[a + k]) == Some(kids[a + k + 1]));
        }
    }
}

proof fn lemma_equal_entries_stay_equal(
    p: usize,
    kids: Seq<usize>,
    first: spec_fn(usize) -> Option<usize>,
    next: spec_fn(usize) -> Option<usize>,
    a: int,
    b: int,
    k: int,
)
    requires
        is_child_list(p, kids, first, next),
        0 <= a < b < kids.len(),
        0 <= k <= kids.len() - 1 - b,
        kids[a] == kids[b],
    ensures
        kids[a + k] == kids[b + k],
    decreases k,
{
    if k > 0 {
        lemma_equal_entries_stay_equal(p, kids, first, next, a, b, k - 1);
        assert(next(kids[a + k - 1]) == Some(kids[a + k]));
        assert(next(kids[b + k - 1]) == Some(kids[b + k]));
    }
}

/// Walking the children of a node yields exactly its children, in the
/// tree's order, with none left out and none repeated, and then ends.
pub proof fn lemma_children_enumerated(
    p: usize,
    kids: Seq<usize>,
    first: spec_fn(usize) -> Option<usize>,
    next: spec_fn(usize) -> Option<usize>,
    fuel: nat,
)
    requires
        is_child_list(p, kids, first, next),
        fuel > kids.len(),
    ensures
        walk(CursorState::Start(p), first, next, fuel) == kids,
        kids.no_duplicates(),
{
    lemma_child_list_distinct(p, kids, first, next);
    if kids.len() > 0 {
        lemma_walk_suffix(p, kids, first, next, 0, (fuel - 1) as nat);
        assert(walk(CursorState::Start(p), first, next, fuel) =~= kids);
    }
}

/// Tree consistency: a node that is among its parent's children is yielded
/// by the walk over the parent's children.
pub proof fn lemma_child_found_under_parent(
    n: usize,
    p: usize,
    kids: Seq<usize>,
    first: spec_fn(usize) -> Option<usize>,
    next: spec_fn(usize) -> Option<usize>,
)
    requires
        is_child_list(p, kids, first, next),
        kids.contains(n),
    ensures
        walk(CursorState::Start(p), first, next, (kids.len() + 1) as nat).contains(n),
{
    lemma_children_enumerated(p, kids, first, next, (kids.len() + 1) as nat);
}

/// A leaf yields nothing: the first request finds no child, the walk ends at
/// once, and an ended walk asks nothing more and stays ended.
pub proof fn lemma_leaf_walk_is_empty(
    p: usize,
    first: spec_fn(usize) -> Option<usize>,
    next: spec_fn(usize) -> Option<usize>,
    fuel: nat,
    later: Option<usize>,
)
    requires
        first(p) is None,
    ensures
        walk(CursorState::Start(p), first, next, fuel) == Seq::<usize>::empty(),
        step(CursorState::Start(p), first(p)) == CursorState::Exhausted,
        query_of(CursorState::Exhausted) is None,
        step(CursorState::Exhausted, later) == CursorState::Exhausted,
{
}

} // verus!
