use vstd::prelude::*;
use crate::loader::Loader;
use crate::opcodes::{decode, entry, Dispatch, Entry, Node};
use crate::slice::SliceData;

verus! {

/// One slot of a dispatch node.
#[derive(Clone, Copy, Debug, PartialEq, Eq, Structural)]
pub enum Handler {
    /// No instruction is assigned to this byte.
    Unknown,
    /// The byte completes an opcode; the loader reads the operands.
    Direct(Loader),
    /// Another byte is read, in the child node with this index.
    Subset(usize),
}

/// Why no loader could be selected.
#[derive(Debug, PartialEq, Eq)]
pub enum DecodeError {
    /// The slice ended at byte offset `position` before an opcode was complete.
    Underrun { position: usize },
    /// The bytes `prefix` lead to a slot with no instruction.
    UnknownOpcode { prefix: Vec<u8> },
}

/// What a slot must hold for the node to agree with entry `e` of the opcode
/// table, given how many children the node has.
pub open spec fn shallow_slot(h: Handler, e: Entry, n_children: nat) -> bool {
    match e {
        Entry::Unassigned => h == Handler::Unknown,
        Entry::Direct(l) => h == Handler::Direct(l),
        Entry::Sub(_) => match h {
            Handler::Subset(i) => i < n_children,
            _ => false,
        },
    }
}

/// The slot that entry `b` of a table without children asks for.
pub open spec fn expected(node: Node, b: u8) -> Handler {
    match entry(node, b) {
        Entry::Direct(l) => Handler::Direct(l),
        _ => Handler::Unknown,
    }
}

/// The slots of `node`'s table below byte `upto`, and `Unknown` from there on.
pub open spec fn filled(node: Node, upto: int) -> Seq<Handler> {
    Seq::new(256, |b: int| if b < upto { expected(node, b as u8) } else { Handler::Unknown })
}

/// `slots` with every child index moved up by `offset`.
pub open spec fn shifted(slots: Seq<Handler>, offset: int) -> Seq<Handler> {
    slots.map_values(
        |h: Handler|
            match h {
                Handler::Subset(i) => Handler::Subset((i + offset) as usize),
                _ => h,
            },
    )
}

/// A node of 256 slots whose `Subset` slots name one of `n` nodes.
pub open spec fn valid_node(slots: Seq<Handler>, n: nat) -> bool {
    &&& slots.len() == 256
    &&& forall|b: int|
        0 <= b < 256 ==> match #[trigger] slots[b] {
            Handler::Subset(i) => i < n,
            _ => true,
        }
}

/// The node `slots`, and the nodes of `nodes` it leads to within `depth`
/// levels, hold exactly the opcode table of `node`.
pub open spec fn conforms_from(
    nodes: Seq<Seq<Handler>>,
    slots: Seq<Handler>,
    node: Node,
    depth: nat,
) -> bool
    decreases depth,
{
    &&& depth > 0
    &&& slots.len() == 256
    &&& forall|b: u8|
        #![trigger entry(node, b)]
        shallow_slot(slots[b as int], entry(node, b), nodes.len())
    &&& forall|b: u8|
        #![trigger entry(node, b)]
        match entry(node, b) {
            Entry::Sub(child) => match slots[b as int] {
                Handler::Subset(i) => i < nodes.len() && conforms_from(
                    nodes,
                    nodes[i as int],
                    child,
                    (depth - 1) as nat,
                ),
                _ => false,
            },
            _ => true,
        }
}

/// Slot `b` of `slots` holds entry `b` of `node`'s table, and the child it
/// leads to conforms within `depth - 1` levels.
pub open spec fn slot_conforms(
    nodes: Seq<Seq<Handler>>,
    slots: Seq<Handler>,
    node: Node,
    b: u8,
    depth: nat,
) -> bool {
    &&& shallow_slot(slots[b as int], entry(node, b), nodes.len())
    &&& match entry(node, b) {
        Entry::Sub(child) => match slots[b as int] {
            Handler::Subset(i) => i < nodes.len() && conforms_from(
                nodes,
                nodes[i as int],
                child,
                (depth - 1) as nat,
            ),
            _ => false,
        },
        _ => true,
    }
}

/// What a lookup that starts in node `slots` yields on the bytes `rest`.
pub open spec fn dispatch_from(nodes: Seq<Seq<Handler>>, slots: Seq<Handler>, rest: Seq<u8>) -> Dispatch
    decreases rest.len(),
{
    if rest.len() == 0 {
        Dispatch::Underrun
    } else {
        match slots[rest[0] as int] {
            Handler::Unknown => Dispatch::Unassigned(seq![rest[0]]),
            Handler::Direct(l) => Dispatch::Found(l, 1),
            Handler::Subset(i) => if i < nodes.len() {
                match dispatch_from(nodes, nodes[i as int], rest.drop_first()) {
                    Dispatch::Found(l, depth) => Dispatch::Found(l, depth + 1),
                    Dispatch::Unassigned(prefix) => Dispatch::Unassigned(seq![rest[0]] + prefix),
                    Dispatch::Underrun => Dispatch::Underrun,
                }
            } else {
                Dispatch::Unassigned(seq![rest[0]])
            },
        }
    }
}

/// A dispatch table: the 256 slots of its top node, and every node below it
/// in one flat list, which `Subset` slots refer to by index.
pub struct Handlers {
    directs: Vec<Handler>,
    subsets: Vec<Vec<Handler>>,
    /// For each node of the list, the node (-1 for the top one) and byte of
    /// the one slot that refers to it.
    parents: Ghost<Seq<(int, int)>>,
}

impl Handlers {
    /// The slots of the top node.
    pub closed spec fn slots(self) -> Seq<Handler> {
        self.directs@
    }

    /// The nodes below the top node.
    pub closed spec fn nodes(self) -> Seq<Seq<Handler>> {
        self.subsets@.map_values(|v: Vec<Handler>| v@)
    }

    /// Every node has 256 slots, every `Subset` slot names an existing node,
    /// and the nodes form a tree.
    pub open spec fn wf(self) -> bool {
        &&& valid_node(self.slots(), self.nodes().len())
        &&& forall|k: int| 0 <= k < self.nodes().len() ==> valid_node(#[trigger] self.nodes()[k], self.nodes().len())
        &&& self.parents_ok()
    }

    /// Slot `b` of node `p` of the list, or of the top node when `p` is -1.
    pub open spec fn slot_at(self, p: int, b: int) -> Handler {
        if p < 0 {
            self.slots()[b]
        } else {
            self.nodes()[p][b]
        }
    }

    /// The recorded parent of each node is a slot of an earlier node (or of
    /// the top node) that refers to it, and it is the only slot that does.
    pub closed spec fn parents_ok(self) -> bool {
        let n = self.nodes().len();
        &&& self.parents@.len() == n
        &&& forall|k: int|
            0 <= k < n ==> -1 <= (#[trigger] self.parents@[k]).0 < k && 0 <= self.parents@[k].1 < 256
                && self.slot_at(self.parents@[k].0, self.parents@[k].1) is Subset && self.slot_at(
                self.parents@[k].0,
                self.parents@[k].1,
            )->Subset_0 == k
        &&& forall|p: int, b: int|
            -1 <= p < n && 0 <= b < 256 && (#[trigger] self.slot_at(p, b)) is Subset ==> self.slot_at(
                p,
                b,
            )->Subset_0 < n && self.parents@[self.slot_at(p, b)->Subset_0 as int] == (p, b)
    }

    /// Some slot of the top node, or of a node before `k` in the list, refers
    /// to node `k`.
    pub open spec fn has_parent_slot(self, k: int) -> bool {
        exists|p: int, b: int|
            -1 <= p < k && 0 <= b < 256 && (#[trigger] self.slot_at(p, b)) is Subset && self.slot_at(
                p,
                b,
            )->Subset_0 == k
    }

    /// Every node of the list is reached through exactly one slot, which
    /// belongs to the top node or to a node earlier in the list: the nodes
    /// form a tree below the top node.
    pub open spec fn is_tree(self) -> bool {
        let n = self.nodes().len();
        &&& forall|k: int| 0 <= k < n ==> #[trigger] self.has_parent_slot(k)
        &&& forall|p1: int, b1: int, p2: int, b2: int|
            -1 <= p1 < n && 0 <= b1 < 256 && -1 <= p2 < n && 0 <= b2 < 256 && self.slot_at(p1, b1) is Subset
                && #[trigger] self.slot_at(p1, b1) == #[trigger] self.slot_at(p2, b2) ==> p1 == p2 && b1 == b2
    }

    /// The table holds exactly the opcode tree below `node`.
    pub open spec fn conforms(self, node: Node) -> bool {
        conforms_from(self.nodes(), self.slots(), node, 3)
    }

    /// What a lookup yields on the bytes `rest`.
    pub open spec fn dispatch(self, rest: Seq<u8>) -> Dispatch {
        dispatch_from(self.nodes(), self.slots(), rest)
    }

    /// `self` is `old` with the top slots `lo..=hi` filled as the root of the
    /// opcode tree prescribes, through `added` new nodes; the other top slots
    /// and the nodes `old` had are kept.
    pub open spec fn extends_root(self, old: Handlers, lo: int, hi: int, added: nat) -> bool {
        &&& self.wf()
        &&& self.nodes().len() == old.nodes().len() + added
        &&& forall|k: int| 0 <= k < old.nodes().len() ==> #[trigger] self.nodes()[k] == old.nodes()[k]
        &&& forall|b: int| 0 <= b < 256 && !(lo <= b <= hi) ==> #[trigger] self.slots()[b] == old.slots()[b]
        &&& forall|b: u8| lo <= b <= hi ==> #[trigger] slot_conforms(self.nodes(), self.slots(), Node::Root, b, 3)
    }

    /// A table whose slots are all `Unknown`.
    pub(crate) fn new() -> (r: Handlers)
        ensures
            r.wf(),
            r.slots() == Seq::new(256, |b: int| Handler::Unknown),
            r.nodes() == Seq::<Seq<Handler>>::empty(),
    {
        let mut directs: Vec<Handler> = Vec::new();
        while directs.len() < 256
            invariant
                directs.len() <= 256,
                forall|b: int| 0 <= b < directs.len() ==> directs@[b] == Handler::Unknown,
            decreases 256 - directs.len(),
        {
            directs.push(Handler::Unknown);
        }
        let r = Handlers { directs, subsets: Vec::new(), parents: Ghost(Seq::empty()) };
        assert(r.directs@ =~= Seq::new(256, |b: int| Handler::Unknown));
        assert(r.nodes() =~= Seq::<Seq<Handler>>::empty());
        r
    }

    /// Installs `handler` at slot `code` of the top node, which must still
    /// be free.
    pub(crate) fn register_handler(&mut self, code: u8, handler: Loader)
        requires
            old(self).wf(),
            old(self).slots()[code as int] == Handler::Unknown,
        ensures
            final(self).wf(),
            final(self).slots() == old(self).slots().update(code as int, Handler::Direct(handler)),
            final(self).nodes() == old(self).nodes(),
    {
        self.directs.set(code as usize, Handler::Direct(handler));
        proof {
            lemma_set_tree(*old(self), *self, code);
        }
    }

    /// Registers a direct loader at byte `code` of the top node.
    pub(crate) fn set(&mut self, code: u8, handler: Loader)
        requires
            old(self).wf(),
            old(self).slots()[code as int] == Handler::Unknown,
        ensures
            final(self).wf(),
            final(self).slots() == old(self).slots().update(code as int, Handler::Direct(handler)),
            final(self).nodes() == old(self).nodes(),
    {
        self.register_handler(code, handler);
    }

    /// Registers `handler` at every byte of `codes`, all of which must be free.
    pub(crate) fn set_range(&mut self, codes: std::ops::Range<u8>, handler: Loader)
        requires
            old(self).wf(),
            forall|b: int| codes.start <= b < codes.end ==> old(self).slots()[b] == Handler::Unknown,
        ensures
            final(self).wf(),
            final(self).slots() == Seq::new(
                256,
                |b: int|
                    if codes.start <= b < codes.end {
                        Handler::Direct(handler)
                    } else {
                        old(self).slots()[b]
                    },
            ),
            final(self).nodes() == old(self).nodes(),
    {
        if codes.start >= codes.end {
            assert(self.slots() =~= Seq::new(
                256,
                |b: int|
                    if codes.start <= b < codes.end {
                        Handler::Direct(handler)
                    } else {
                        old(self).slots()[b]
                    },
            ));
            return;
        }
        let mut code = codes.start;
        while code < codes.end
            invariant
                self.wf(),
                old(self).wf(),
                codes.start <= code <= codes.end,
                forall|b: int| codes.start <= b < codes.end ==> old(self).slots()[b] == Handler::Unknown,
                self.nodes() == old(self).nodes(),
                forall|b: int|
                    0 <= b < 256 ==> #[trigger] self.slots()[b] == if codes.start <= b < code {
                        Handler::Direct(handler)
                    } else {
                        old(self).slots()[b]
                    },
            decreases codes.end - code,
        {
            self.register_handler(code, handler);
            code = code + 1;
        }
        assert(self.slots() =~= Seq::new(
            256,
            |b: int|
                if codes.start <= b < codes.end {
                    Handler::Direct(handler)
                } else {
                    old(self).slots()[b]
                },
        ));
    }

    /// Installs the table `subset` as the node reached through byte `code` of
    /// the top node, which must still be free. The nodes of `subset` are
    /// appended to this table's list, their child indices moved accordingly.
    pub(crate) fn add_subset(&mut self, code: u8, subset: Handlers)
        requires
            old(self).wf(),
            subset.wf(),
            old(self).slots()[code as int] == Handler::Unknown,
            old(self).nodes().len() + 1 + subset.nodes().len() <= usize::MAX,
        ensures
            final(self).wf(),
            final(self).slots() == old(self).slots().update(
                code as int,
                Handler::Subset(old(self).nodes().len() as usize),
            ),
            final(self).nodes() == old(self).nodes() + seq![
                shifted(subset.slots(), old(self).nodes().len() + 1int),
            ] + subset.nodes().map_values(
                |n: Seq<Handler>| shifted(n, old(self).nodes().len() + 1int),
            ),
    {
        let base = self.subsets.len();
        let offset = base + 1;
        let ghost total = (offset + subset.subsets.len()) as nat;
        let ghost moved = subset.nodes().map_values(|n: Seq<Handler>| shifted(n, offset as int));
        let top = shift(&subset.directs, offset);
        self.subsets.push(top);
        assert(self.nodes() =~= old(self).nodes() + seq![shifted(subset.slots(), offset as int)]);
        let mut k: usize = 0;
        while k < subset.subsets.len()
            invariant
                old(self).wf(),
                subset.wf(),
                base == old(self).nodes().len(),
                offset == base + 1,
                total == offset + subset.nodes().len(),
                total <= usize::MAX,
                moved == subset.nodes().map_values(|n: Seq<Handler>| shifted(n, offset as int)),
                k <= subset.subsets.len(),
                self.directs@ == old(self).directs@,
                self.nodes() == old(self).nodes() + seq![shifted(subset.slots(), offset as int)]
                    + moved.take(k as int),
            decreases subset.subsets.len() - k,
        {
            assert(valid_node(subset.nodes()[k as int], subset.nodes().len()));
            let node = shift(&subset.subsets[k], offset);
            let ghost prev = self.nodes();
            assert(subset.subsets@[k as int]@ == subset.nodes()[k as int]);
            assert(node@ == moved[k as int]);
            self.subsets.push(node);
            assert(self.nodes() =~= prev.push(moved[k as int]));
            k = k + 1;
            assert(moved.take(k as int) =~= moved.take(k - 1).push(moved[k - 1]));
            assert(self.nodes() =~= old(self).nodes() + seq![shifted(subset.slots(), offset as int)]
                + moved.take(k as int));
        }
        self.directs.set(code as usize, Handler::Subset(base));
        self.parents = Ghost(
            old(self).parents@ + seq![(-1int, code as int)] + subset.parents@.map_values(
                |q: (int, int)| (q.0 + offset, q.1),
            ),
        );
        assert(moved.take(k as int) =~= moved);
        let ghost n = self.nodes();
        assert(n.len() == total);
        assert forall|j: int| 0 <= j < n.len() implies valid_node(#[trigger] n[j], n.len()) by {
            if j < base {
                assert(n[j] == old(self).nodes()[j]);
            } else if j == base {
                assert(n[j] == shifted(subset.slots(), offset as int));
            } else {
                assert(n[j] == moved[j - offset]);
                assert(valid_node(subset.nodes()[j - offset], subset.nodes().len()));
            }
        }
        proof {
            assert(self.parents@ =~= old(self).parents@ + seq![(-1int, code as int)]
                + subset.parents@.map_values(
                |q: (int, int)| (q.0 + old(self).nodes().len() + 1, q.1),
            ));
            lemma_add_subset_tree(*old(self), subset, *self, code);
        }
    }

    /// Reads the opcode at the cursor and returns its loader. Consumes one
    /// byte per level of the tree; on an unassigned slot the error carries
    /// the bytes read.
    pub fn get_handler(&self, slice: &mut SliceData) -> (r: Result<Loader, DecodeError>)
        requires
            self.wf(),
        ensures
            final(slice).bytes() == old(slice).bytes(),
            match self.dispatch(old(slice).remaining()) {
                Dispatch::Found(l, depth) => {
                    &&& r matches Ok(found) && found == l
                    &&& final(slice).consumed() == old(slice).consumed() + depth
                },
                Dispatch::Unassigned(p) => {
                    &&& r matches Err(DecodeError::UnknownOpcode { prefix }) && prefix@ == p
                    &&& final(slice).consumed() == old(slice).consumed() + p.len()
                },
                Dispatch::Underrun => {
                    &&& r matches Err(DecodeError::Underrun { position }) && position
                        == old(slice).bytes().len()
                    &&& final(slice).consumed() == old(slice).bytes().len()
                },
            },
    {
        let r = self.lookup(&self.directs, slice, Vec::new());
        proof {
            if let Dispatch::Unassigned(p) = self.dispatch(old(slice).remaining()) {
                assert(Seq::<u8>::empty() + p =~= p);
            }
        }
        r
    }

    fn lookup(&self, slots: &Vec<Handler>, slice: &mut SliceData, prefix: Vec<u8>) -> (r: Result<
        Loader,
        DecodeError,
    >)
        requires
            self.wf(),
            valid_node(slots@, self.nodes().len()),
        ensures
            final(slice).bytes() == old(slice).bytes(),
            match dispatch_from(self.nodes(), slots@, old(slice).remaining()) {
                Dispatch::Found(l, depth) => {
                    &&& r matches Ok(found) && found == l
                    &&& final(slice).consumed() == old(slice).consumed() + depth
                },
                Dispatch::Unassigned(p) => {
                    &&& r matches Err(DecodeError::UnknownOpcode { prefix: q }) && q@ == prefix@ + p
                    &&& final(slice).consumed() == old(slice).consumed() + p.len()
                },
                Dispatch::Underrun => {
                    &&& r matches Err(DecodeError::Underrun { position }) && position
                        == old(slice).bytes().len()
                    &&& final(slice).consumed() == old(slice).bytes().len()
                },
            },
        decreases old(slice).bytes().len() - old(slice).consumed(),
    {
        let ghost rest = slice.remaining();
        let ghost before = prefix@;
        let cmd = match slice.get_next_byte() {
            Some(b) => b,
            None => {
                return Err(DecodeError::Underrun { position: slice.position() });
            },
        };
        assert(rest.len() > 0 && rest[0] == cmd);
        assert(slice.remaining() =~= rest.drop_first());
        let mut prefix = prefix;
        prefix.push(cmd);
        match slots[cmd as usize] {
            Handler::Unknown => Err(DecodeError::UnknownOpcode { prefix }),
            Handler::Direct(l) => Ok(l),
            Handler::Subset(i) => {
                assert(self.subsets@[i as int]@ == self.nodes()[i as int]);
                let r = self.lookup(&self.subsets[i], slice, prefix);
                proof {
                    if let Dispatch::Unassigned(p) = dispatch_from(
                        self.nodes(),
                        self.nodes()[i as int],
                        rest.drop_first(),
                    ) {
                        assert(before.push(cmd) + p =~= before + (seq![cmd] + p));
                    }
                }
                r
            },
        }
    }
}

/// Conformity only depends on the nodes it reaches: appending nodes to the
/// list keeps it.
pub(crate) proof fn lemma_conforms_prefix(
    short: Seq<Seq<Handler>>,
    long: Seq<Seq<Handler>>,
    slots: Seq<Handler>,
    node: Node,
    depth: nat,
)
    requires
        conforms_from(short, slots, node, depth),
        short.len() <= long.len(),
        forall|k: int| 0 <= k < short.len() ==> long[k] == short[k],
    ensures
        conforms_from(long, slots, node, depth),
    decreases depth,
{
    assert forall|b: u8| #![trigger entry(node, b)]
        shallow_slot(slots[b as int], entry(node, b), long.len()) by {
        assert(shallow_slot(slots[b as int], entry(node, b), short.len()));
    }
    assert forall|b: u8|
        #![trigger entry(node, b)]
        match entry(node, b) {
            Entry::Sub(child) => match slots[b as int] {
                Handler::Subset(i) => i < long.len() && conforms_from(
                    long,
                    long[i as int],
                    child,
                    (depth - 1) as nat,
                ),
                _ => false,
            },
            _ => true,
        } by {
        if let Entry::Sub(child) = entry(node, b) {
            if let Handler::Subset(i) = slots[b as int] {
                lemma_conforms_prefix(short, long, short[i as int], child, (depth - 1) as nat);
            }
        }
    }
}

/// Moving a conforming table's nodes to position `offset` of a larger list,
/// with its child indices moved alike, keeps it conforming.
pub(crate) proof fn lemma_conforms_shift(
    inner: Seq<Seq<Handler>>,
    outer: Seq<Seq<Handler>>,
    slots: Seq<Handler>,
    node: Node,
    depth: nat,
    offset: int,
)
    requires
        conforms_from(inner, slots, node, depth),
        offset >= 0,
        offset + inner.len() <= outer.len() <= usize::MAX,
        forall|k: int| 0 <= k < inner.len() ==> outer[offset + k] == shifted(inner[k], offset),
    ensures
        conforms_from(outer, shifted(slots, offset), node, depth),
    decreases depth,
{
    let moved = shifted(slots, offset);
    assert forall|b: u8| #![trigger entry(node, b)]
        shallow_slot(moved[b as int], entry(node, b), outer.len()) by {
        assert(shallow_slot(slots[b as int], entry(node, b), inner.len()));
    }
    assert forall|b: u8|
        #![trigger entry(node, b)]
        match entry(node, b) {
            Entry::Sub(child) => match moved[b as int] {
                Handler::Subset(i) => i < outer.len() && conforms_from(
                    outer,
                    outer[i as int],
                    child,
                    (depth - 1) as nat,
                ),
                _ => false,
            },
            _ => true,
        } by {
        assert(shallow_slot(slots[b as int], entry(node, b), inner.len()));
        if let Entry::Sub(child) = entry(node, b) {
            if let Handler::Subset(i) = slots[b as int] {
                lemma_conforms_shift(inner, outer, inner[i as int], child, (depth - 1) as nat, offset);
                assert(outer[offset + i] == shifted(inner[i as int], offset));
            }
        }
    }
}

/// A slot that conforms keeps conforming when nodes are appended and the
/// slot itself is left alone.
pub(crate) proof fn lemma_slot_conforms_prefix(
    short: Seq<Seq<Handler>>,
    long: Seq<Seq<Handler>>,
    before: Seq<Handler>,
    after: Seq<Handler>,
    node: Node,
    b: u8,
    depth: nat,
)
    requires
        slot_conforms(short, before, node, b, depth),
        after[b as int] == before[b as int],
        short.len() <= long.len(),
        forall|k: int| 0 <= k < short.len() ==> long[k] == short[k],
    ensures
        slot_conforms(long, after, node, b, depth),
{
    if let Entry::Sub(child) = entry(node, b) {
        if let Handler::Subset(i) = before[b as int] {
            lemma_conforms_prefix(short, long, short[i as int], child, (depth - 1) as nat);
        }
    }
}

/// A lookup in a conforming table reads the opcode tree.
pub proof fn lemma_conforms_dispatch(
    nodes: Seq<Seq<Handler>>,
    slots: Seq<Handler>,
    node: Node,
    depth: nat,
    rest: Seq<u8>,
)
    requires
        conforms_from(nodes, slots, node, depth),
    ensures
        dispatch_from(nodes, slots, rest) == decode(node, rest),
    decreases rest.len(),
{
    if rest.len() > 0 {
        let b = rest[0];
        assert(shallow_slot(slots[b as int], entry(node, b), nodes.len()));
        if let Entry::Sub(child) = entry(node, b) {
            if let Handler::Subset(i) = slots[b as int] {
                lemma_conforms_dispatch(nodes, nodes[i as int], child, (depth - 1) as nat, rest.drop_first());
            }
        }
    }
}

/// A lookup in a table that conforms to code page 0 reads the opcode tree:
/// on any bytes it yields what `decode` prescribes for the root.
pub proof fn lemma_code_page_0_dispatch(h: Handlers, rest: Seq<u8>)
    requires
        h.conforms(Node::Root),
    ensures
        h.dispatch(rest) == decode(Node::Root, rest),
{
    lemma_conforms_dispatch(h.nodes(), h.slots(), Node::Root, 3, rest);
}


/// Filling a free slot with a loader keeps the tree.
proof fn lemma_set_tree(old: Handlers, new: Handlers, code: u8)
    requires
        old.wf(),
        old.slots()[code as int] == Handler::Unknown,
        new.slots() == old.slots().update(code as int, new.slots()[code as int]),
        !(new.slots()[code as int] is Subset),
        new.nodes() == old.nodes(),
        new.parents@ == old.parents@,
    ensures
        new.parents_ok(),
{
    let n = new.nodes().len();
    assert forall|p: int, b: int| -1 <= p < n && 0 <= b < 256 && !(p == -1 && b == code) implies #[trigger] new.slot_at(p, b)
        == old.slot_at(p, b) by {
    }
    assert forall|k: int|
        0 <= k < n implies -1 <= (#[trigger] new.parents@[k]).0 < k && 0 <= new.parents@[k].1 < 256
            && new.slot_at(new.parents@[k].0, new.parents@[k].1) is Subset && new.slot_at(
            new.parents@[k].0,
            new.parents@[k].1,
        )->Subset_0 == k by {
        let q = old.parents@[k];
        assert(old.slot_at(q.0, q.1) is Subset);
        assert(new.slot_at(q.0, q.1) == old.slot_at(q.0, q.1));
    }
    assert forall|p: int, b: int|
        -1 <= p < n && 0 <= b < 256 && (#[trigger] new.slot_at(p, b)) is Subset implies new.slot_at(
            p,
            b,
        )->Subset_0 < n && new.parents@[new.slot_at(p, b)->Subset_0 as int] == (p, b) by {
        assert(new.slot_at(p, b) == old.slot_at(p, b));
    }
}

/// Installing a tree in a free slot of a tree gives a tree.
proof fn lemma_add_subset_tree(old: Handlers, sub: Handlers, new: Handlers, code: u8)
    requires
        old.wf(),
        sub.wf(),
        old.slots()[code as int] == Handler::Unknown,
        old.nodes().len() + 1 + sub.nodes().len() <= usize::MAX,
        new.slots() == old.slots().update(code as int, Handler::Subset(old.nodes().len() as usize)),
        new.nodes() == old.nodes() + seq![shifted(sub.slots(), old.nodes().len() + 1int)]
            + sub.nodes().map_values(|n: Seq<Handler>| shifted(n, old.nodes().len() + 1int)),
        new.parents@ == old.parents@ + seq![(-1int, code as int)] + sub.parents@.map_values(
            |q: (int, int)| (q.0 + old.nodes().len() + 1, q.1),
        ),
    ensures
        new.parents_ok(),
{
    let base = old.nodes().len() as int;
    let offset = base + 1;
    let n = new.nodes().len();
    assert(n == offset + sub.nodes().len());
    assert forall|p: int, b: int| 0 <= b < 256 && 0 <= p < sub.nodes().len() implies #[trigger] new.slot_at(
        p + offset,
        b,
    ) == match sub.slot_at(p, b) {
        Handler::Subset(i) => Handler::Subset((i + offset) as usize),
        h => h,
    } by {
        assert(new.nodes()[p + offset] == shifted(sub.nodes()[p], offset));
        assert(valid_node(sub.nodes()[p], sub.nodes().len()));
    }
    assert forall|b: int| 0 <= b < 256 implies #[trigger] new.slot_at(base, b) == match sub.slot_at(-1, b) {
        Handler::Subset(i) => Handler::Subset((i + offset) as usize),
        h => h,
    } by {
        assert(new.nodes()[base] == shifted(sub.slots(), offset));
    }
    assert forall|p: int, b: int| -1 <= p < base && 0 <= b < 256 && !(p == -1 && b == code) implies #[trigger] new.slot_at(p, b)
        == old.slot_at(p, b) by {
        if p >= 0 {
            assert(new.nodes()[p] == old.nodes()[p]);
        }
    }
    assert forall|k: int|
        0 <= k < n implies -1 <= (#[trigger] new.parents@[k]).0 < k && 0 <= new.parents@[k].1 < 256
            && new.slot_at(new.parents@[k].0, new.parents@[k].1) is Subset && new.slot_at(
            new.parents@[k].0,
            new.parents@[k].1,
        )->Subset_0 == k by {
        if k < base {
            let q = old.parents@[k];
            assert(new.parents@[k] == q);
            assert(old.slot_at(q.0, q.1) is Subset);
            assert(new.slot_at(q.0, q.1) == old.slot_at(q.0, q.1));
        } else if k == base {
            assert(new.parents@[k] == (-1int, code as int));
        } else {
            let j = k - offset;
            let q = sub.parents@[j];
            assert(new.parents@[k] == (q.0 + offset, q.1));
            assert(sub.slot_at(q.0, q.1) is Subset);
            if q.0 < 0 {
                assert(new.slot_at(base, q.1) == Handler::Subset((j + offset) as usize));
            } else {
                assert(new.slot_at(q.0 + offset, q.1) == Handler::Subset((j + offset) as usize));
            }
        }
    }
    assert forall|p: int, b: int|
        -1 <= p < n && 0 <= b < 256 && (#[trigger] new.slot_at(p, b)) is Subset implies new.slot_at(
            p,
            b,
        )->Subset_0 < n && new.parents@[new.slot_at(p, b)->Subset_0 as int] == (p, b) by {
        if p == -1 && b == code {
            assert(new.slot_at(p, b) == Handler::Subset(base as usize));
        } else if p < base {
            assert(new.slot_at(p, b) == old.slot_at(p, b));
            assert(old.slot_at(p, b) is Subset);
            let i = old.slot_at(p, b)->Subset_0 as int;
            assert(old.parents@[i] == (p, b));
            assert(new.parents@[i] == old.parents@[i]);
        } else if p == base {
            assert(sub.slot_at(-1, b) is Subset);
            let i = sub.slot_at(-1, b)->Subset_0 as int;
            assert(sub.parents@[i] == (-1int, b));
            assert(new.parents@[i + offset] == (base, b));
        } else {
            let q = p - offset;
            assert(sub.slot_at(q, b) is Subset);
            let i = sub.slot_at(q, b)->Subset_0 as int;
            assert(sub.parents@[i] == (q, b));
            assert(new.parents@[i + offset] == (p, b));
        }
    }
}

/// A well-formed table is a tree.
pub proof fn lemma_wf_tree(h: Handlers)
    requires
        h.wf(),
    ensures
        h.is_tree(),
{
    let n = h.nodes().len();
    assert forall|k: int| 0 <= k < n implies #[trigger] h.has_parent_slot(k) by {
        let q = h.parents@[k];
        assert(h.slot_at(q.0, q.1) is Subset);
    }
    assert forall|p1: int, b1: int, p2: int, b2: int|
        -1 <= p1 < n && 0 <= b1 < 256 && -1 <= p2 < n && 0 <= b2 < 256 && h.slot_at(p1, b1) is Subset
            && #[trigger] h.slot_at(p1, b1) == #[trigger] h.slot_at(p2, b2) implies p1 == p2 && b1 == b2 by {
        let i = h.slot_at(p1, b1)->Subset_0 as int;
        assert(h.parents@[i] == (p1, b1));
        assert(h.parents@[i] == (p2, b2));
    }
}

/// Copies `slots` with every child index moved up by `offset`.
fn shift(slots: &Vec<Handler>, offset: usize) -> (r: Vec<Handler>)
    requires
        forall|b: int|
            0 <= b < slots@.len() ==> match #[trigger] slots@[b] {
                Handler::Subset(i) => i + offset <= usize::MAX,
                _ => true,
            },
    ensures
        r@ == shifted(slots@, offset as int),
{
    let mut r: Vec<Handler> = Vec::new();
    let mut b: usize = 0;
    while b < slots.len()
        invariant
            b <= slots@.len(),
            r@ == shifted(slots@, offset as int).take(b as int),
            forall|c: int|
                0 <= c < slots@.len() ==> match #[trigger] slots@[c] {
                    Handler::Subset(i) => i + offset <= usize::MAX,
                    _ => true,
                },
        decreases slots.len() - b,
    {
        let h = match slots[b] {
            Handler::Subset(i) => Handler::Subset(i + offset),
            other => other,
        };
        r.push(h);
        b = b + 1;
        assert(r@ =~= shifted(slots@, offset as int).take(b as int));
    }
    assert(r@ =~= shifted(slots@, offset as int));
    r
}

} // verus!
