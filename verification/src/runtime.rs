//! Template instantiation: one runtime node per template node, property
//! scopes wired to the nearest owner, id references resolved, the
//! subscriber list computed once, and externally attached children
//! parked under the template's slot. Hot reload rebuilds the whole tree
//! from the new template and re-attaches the previously slotted children
//! by identity.

use vstd::prelude::*;
use crate::props::TemplateProperties;
use crate::props::clone_props;
use crate::styles::HtmlStyle;
use crate::styles::Interaction;
use crate::styles::InteractionTimer;
use crate::styles::advance_timers;
use crate::styles::spec_timer_backward;
use crate::styles::spec_timer_forward;
use crate::styles::HoverTimer;
use crate::styles::PressedTimer;
use crate::template::HtmlTemplate;
use crate::template::NodeType;
use crate::template::XNode;
use crate::util::clone_vec_copy;
use crate::util::slice_eq_bytes;

verus! {

/// A recoverable degradation: the feature is inert, the tree still
/// stands.
pub enum UiWarning {
    /// Two nodes declared the same id; the later one keeps it.
    DuplicateId(Vec<u8>),
    /// A `target` names an id no node declares.
    UnknownTarget(Vec<u8>),
    /// A `watch` names an id no node declares.
    UnknownWatch(Vec<u8>),
    /// Externally attached children found no slot and were dropped.
    NoSlot,
    /// The template has no root node.
    NoRoot,
    /// More than one root; the first wins.
    ExtraRoots,
}

/// One instantiated node. It mirrors the template node of the same
/// index; mutable state (style, scope map, compiled text) lives here.
pub struct RuntimeNode {
    /// The index of the nearest enclosing property-scope owner; the node
    /// itself exactly when it owns a map.
    pub scope: usize,
    /// Whether the node takes part in layout (reserved kinds do not).
    pub rendered: bool,
    /// The node's style state, built from its parsed directives.
    pub style: HtmlStyle,
    /// The node's own property map, owned by template roots and custom
    /// components.
    pub properties: Option<TemplateProperties>,
    /// A resolved `target` reference.
    pub target: Option<usize>,
    /// Nodes observing this node's interaction state (from `watch`).
    pub observers: Vec<usize>,
    /// Externally attached children parked under this node, by host
    /// identity; only a slot node holds any.
    pub slotted: Vec<u64>,
    /// This node's interaction timers.
    pub hover_timer: HoverTimer,
    pub pressed_timer: PressedTimer,
}

/// An instantiated tree: one runtime node per template node, the nodes
/// that must be revisited when the root scope's properties change, and
/// the warnings instantiation produced.
pub struct RuntimeTree {
    pub nodes: Vec<RuntimeNode>,
    pub root: Option<usize>,
    pub subscribers: Vec<usize>,
    pub warnings: Vec<UiWarning>,
}

/// The index of the first slot node of a template, scanning the arena
/// upward from zero.
pub open spec fn spec_first_slot_from(nodes: Seq<XNode>, i: int) -> Option<int>
    decreases nodes.len() - i when 0 <= i <= nodes.len()
{
    if i >= nodes.len() {
        Option::None
    } else if nodes[i].node_type@ is Slot {
        Option::Some(i)
    } else {
        spec_first_slot_from(nodes, i + 1)
    }
}

/// The index of the template's first slot node, if any.
pub open spec fn spec_first_slot(t: HtmlTemplate) -> Option<int> {
    spec_first_slot_from(t.nodes@, 0)
}

proof fn lemma_first_slot_bounds(nodes: Seq<XNode>, i: int)
    requires
        0 <= i <= nodes.len(),
    ensures
        match spec_first_slot_from(nodes, i) {
            Option::Some(j) => i <= j < nodes.len() && nodes[j].node_type@ is Slot,
            Option::None => forall|k: int|
                i <= k < nodes.len() ==> !((#[trigger] nodes[k]).node_type@ is Slot),
        },
    decreases nodes.len() - i,
{
    if i < nodes.len() && !(nodes[i].node_type@ is Slot) {
        lemma_first_slot_bounds(nodes, i + 1);
    }
}

/// Every host identity parked in a tree, in node order.
pub open spec fn spec_collect_slotted(nodes: Seq<RuntimeNode>) -> Seq<u64>
    decreases nodes.len(),
{
    if nodes.len() == 0 {
        Seq::empty()
    } else {
        spec_collect_slotted(nodes.drop_last()) + nodes.last().slotted@
    }
}

/// A tree whose parked identities all sit in one node holds exactly that
/// node's list.
proof fn lemma_collect_single(nodes: Seq<RuntimeNode>, si: int)
    requires
        0 <= si < nodes.len(),
        forall|k: int|
            0 <= k < nodes.len() && k != si ==> (#[trigger] nodes[k]).slotted@ =~= Seq::<
                u64,
            >::empty(),
    ensures
        spec_collect_slotted(nodes) == nodes[si].slotted@,
    decreases nodes.len(),
{
    if nodes.len() > 0 {
        if si == nodes.len() - 1 {
            lemma_collect_empty(nodes.drop_last());
            assert(Seq::<u64>::empty() + nodes.last().slotted@ =~= nodes.last().slotted@);
        } else {
            lemma_collect_single(nodes.drop_last(), si);
            assert(nodes[si].slotted@ + Seq::<u64>::empty() =~= nodes[si].slotted@);
        }
    }
}

/// A tree with no parked identities collects none.
proof fn lemma_collect_empty(nodes: Seq<RuntimeNode>)
    requires
        forall|k: int|
            0 <= k < nodes.len() ==> (#[trigger] nodes[k]).slotted@ =~= Seq::<u64>::empty(),
    ensures
        spec_collect_slotted(nodes) == Seq::<u64>::empty(),
    decreases nodes.len(),
{
    if nodes.len() > 0 {
        lemma_collect_empty(nodes.drop_last());
        assert(Seq::<u64>::empty() + nodes.last().slotted@ =~= nodes.last().slotted@);
    }
}

/// The two per-node build facts: a node's style state is exactly its
/// parsed directives folded up, and a node owns a property map exactly
/// when it is the instantiated root or a custom component.
pub open spec fn built_node_ok(rn: RuntimeNode, t: HtmlTemplate, m: int) -> bool {
    &&& rn.style@ == crate::styles::spec_styles_of(
        crate::style::view_directives(t.nodes@[m].styles@),
    )
    &&& (rn.properties is Some <==> (t.root@.len() >= 1 && m == t.root@[0] as int)
        || t.nodes@[m].node_type@ is Custom)
}

/// Whether an instantiated node must be revisited when its scope's
/// properties change: it carries unresolved expressions, or it is a text
/// node whose raw content holds a placeholder.
pub open spec fn spec_subscribes(t: HtmlTemplate, m: int) -> bool {
    ||| t.nodes@[m].uncompiled@.len() > 0
    ||| (t.nodes@[m].node_type@ is Text && match t.nodes@[m].content_index {
        Option::Some(ci) => crate::compile::spec_is_templated(t.content@[ci as int]@),
        Option::None => false,
    })
}

/// Instantiates a template. The runtime arena mirrors the template
/// arena index for index; scopes point to the nearest owner; the first
/// slot node parks the externally attached children, which are dropped
/// (with a warning) when the template has no slot.
pub fn build_tree(t: &HtmlTemplate, attached: &Vec<u64>) -> (r: RuntimeTree)
    requires
        crate::template::wf_template(*t),
    ensures
        r.nodes@.len() == t.nodes@.len(),
        forall|m: int|
            0 <= m < r.nodes@.len() ==> (#[trigger] r.nodes@[m]).style@
                == crate::styles::spec_styles_of(
                crate::style::view_directives(t.nodes@[m].styles@),
            ),
        forall|m: int|
            0 <= m < r.nodes@.len() ==> ((#[trigger] r.nodes@[m]).properties is Some <==> (
            t.root@.len() >= 1 && m == t.root@[0] as int) || t.nodes@[m].node_type@ is Custom),
        forall|q: int|
            0 <= q < r.subscribers@.len() ==> (#[trigger] r.subscribers@[q] as int)
                < t.nodes@.len() && spec_subscribes(*t, r.subscribers@[q] as int),
        forall|m: usize|
            (m as int) < t.nodes@.len() && spec_subscribes(*t, m as int)
                ==> r.subscribers@.contains(m),
        match spec_first_slot(*t) {
            Option::Some(si) => r.nodes@[si].slotted@ == attached@ && forall|k: int|
                0 <= k < r.nodes@.len() && k != si ==> (#[trigger] r.nodes@[k]).slotted@ =~= Seq::<
                    u64,
                >::empty(),
            Option::None => forall|k: int|
                0 <= k < r.nodes@.len() ==> (#[trigger] r.nodes@[k]).slotted@ =~= Seq::<
                    u64,
                >::empty(),
        },
        spec_collect_slotted(r.nodes@) == (if spec_first_slot(*t) is Some {
            attached@
        } else {
            Seq::<u64>::empty()
        }),
{
    let n = t.nodes.len();
    let root: Option<usize> = if t.root.len() >= 1 {
        Some(t.root[0])
    } else {
        None
    };
    let mut warnings: Vec<UiWarning> = Vec::new();
    if t.root.len() == 0 {
        warnings.push(UiWarning::NoRoot);
    }
    if t.root.len() > 1 {
        warnings.push(UiWarning::ExtraRoots);
    }
    // parent links: template children always point downward
    let mut parent: Vec<Option<usize>> = Vec::new();
    let mut i: usize = 0;
    while i < n
        invariant
            n == t.nodes@.len(),
            i <= n,
            parent@.len() == i,
        decreases n - i,
    {
        parent.push(None);
        i = i + 1;
    }
    let mut p: usize = 0;
    while p < n
        invariant
            crate::template::wf_template(*t),
            n == t.nodes@.len(),
            p <= n,
            parent@.len() == n,
        decreases n - p,
    {
        proof {
            assert(crate::template::wf_arena_node(t.nodes@[p as int], p as int, t.content@.len() as int));
        }
        let mut c: usize = 0;
        let cn = t.nodes[p].children.len();
        while c < cn
            invariant
                crate::template::wf_template(*t),
                n == t.nodes@.len(),
                p < n,
                cn == t.nodes@[p as int].children@.len(),
                c <= cn,
                parent@.len() == n,
                crate::template::wf_arena_node(
                    t.nodes@[p as int],
                    p as int,
                    t.content@.len() as int,
                ),
            decreases cn - c,
        {
            let ch = t.nodes[p].children[c];
            proof {
                assert((t.nodes@[p as int].children@[c as int] as int) < p as int);
            }
            parent.set(ch, Some(p));
            c = c + 1;
        }
        p = p + 1;
    }
    // nodes, top down so a child's scope owner is already settled
    let mut nodes: Vec<RuntimeNode> = Vec::new();
    let mut k: usize = 0;
    while k < n
        invariant
            n == t.nodes@.len(),
            k <= n,
            nodes@.len() == k,
            forall|m: int|
                0 <= m < k ==> (#[trigger] nodes@[m]).slotted@ =~= Seq::<u64>::empty(),
        decreases n - k,
    {
        nodes.push(placeholder_node());
        k = k + 1;
    }
    let mut idx: usize = n;
    while idx > 0
        invariant
            crate::template::wf_template(*t),
            n == t.nodes@.len(),
            idx <= n,
            nodes@.len() == n,
            parent@.len() == n,
            root == (if t.root@.len() >= 1 {
                Option::Some(t.root@[0])
            } else {
                Option::None
            }),
            forall|m: int|
                0 <= m < n ==> (#[trigger] nodes@[m]).slotted@ =~= Seq::<u64>::empty(),
            forall|m: int| idx <= m < n ==> built_node_ok(#[trigger] nodes@[m], *t, m),
        decreases idx,
    {
        let i2 = idx - 1;
        let is_root = match root {
            Some(r0) => r0 == i2,
            None => false,
        };
        let owns = is_root || match &t.nodes[i2].node_type {
            NodeType::Custom(_) => true,
            _ => false,
        };
        let scope: usize = if owns {
            i2
        } else {
            match parent[i2] {
                Some(pp) => {
                    if pp < n {
                        nodes[pp].scope
                    } else {
                        i2
                    }
                },
                None => i2,
            }
        };
        let properties: Option<TemplateProperties> = if owns {
            let mut m = clone_props(&t.nodes[i2].defs);
            if is_root {
                // the template's declared defaults seed the root scope
                let mut di: usize = 0;
                let dn = t.properties.entries.len();
                while di < dn
                    invariant
                        crate::template::wf_template(*t),
                        dn == t.properties.entries@.len(),
                        di <= dn,
                        m.wf(),
                    decreases dn - di,
                {
                    let key = clone_vec_copy(&t.properties.entries[di].0);
                    let val = clone_vec_copy(&t.properties.entries[di].1);
                    m.try_insert(key, val);
                    di = di + 1;
                }
            }
            Some(m)
        } else {
            None
        };
        let rendered = match &t.nodes[i2].node_type {
            NodeType::Template => false,
            NodeType::Property => false,
            _ => true,
        };
        let style = HtmlStyle::from_directives(&t.nodes[i2].styles);
        let delay_ms = style.computed.delay;
        let node = RuntimeNode {
            scope,
            rendered,
            style,
            properties,
            target: None,
            observers: Vec::new(),
            slotted: Vec::new(),
            hover_timer: HoverTimer::new(delay_ms),
            pressed_timer: PressedTimer::new(delay_ms),
        };
        nodes.set(i2, node);
        proof {
            assert(nodes@[i2 as int].slotted@ =~= Seq::<u64>::empty());
        }
        idx = i2;
    }
    // id table: last declaration wins, with a warning
    let mut ids: Vec<(Vec<u8>, usize)> = Vec::new();
    let mut k2: usize = 0;
    while k2 < n
        invariant
            crate::template::wf_template(*t),
            n == t.nodes@.len(),
            k2 <= n,
        decreases n - k2,
    {
        match &t.nodes[k2].id {
            Some(id) => {
                let mut seen = false;
                let mut q: usize = 0;
                while q < ids.len()
                    invariant
                        q <= ids@.len(),
                    decreases ids@.len() - q,
                {
                    if slice_eq_bytes(ids[q].0.as_slice(), id.as_slice()) {
                        seen = true;
                    }
                    q = q + 1;
                }
                if seen {
                    warnings.push(UiWarning::DuplicateId(clone_vec_copy(id)));
                }
                ids.push((clone_vec_copy(id), k2));
            },
            None => {},
        }
        k2 = k2 + 1;
    }
    // resolve target and watch references; unresolved ones stay unset
    let mut k3: usize = 0;
    let mut subscribers: Vec<usize> = Vec::new();
    while k3 < n
        invariant
            crate::template::wf_template(*t),
            n == t.nodes@.len(),
            nodes@.len() == n,
            k3 <= n,
            forall|m: int|
                0 <= m < n ==> (#[trigger] nodes@[m]).slotted@ =~= Seq::<u64>::empty(),
            forall|m: int| 0 <= m < n ==> built_node_ok(#[trigger] nodes@[m], *t, m),
            forall|q: int|
                0 <= q < subscribers@.len() ==> (#[trigger] subscribers@[q] as int) < n
                    && spec_subscribes(*t, subscribers@[q] as int),
            forall|m: usize|
                (m as int) < k3 && spec_subscribes(*t, m as int) ==> subscribers@.contains(m),
        decreases n - k3,
    {
        match &t.nodes[k3].target {
            Some(tid) => {
                match lookup_id(&ids, tid.as_slice(), n) {
                    Some(ti) => {
                        let ghost pre = nodes@[k3 as int];
                        let mut nd = replace_placeholder(&mut nodes, k3);
                        nd.target = Some(ti);
                        put_back(&mut nodes, k3, nd);
                        proof {
                            assert(nodes@[k3 as int].style == pre.style);
                            assert(nodes@[k3 as int].properties is Some <==> pre.properties
                                is Some);
                        }
                    },
                    None => warnings.push(UiWarning::UnknownTarget(clone_vec_copy(tid))),
                }
            },
            None => {},
        }
        match &t.nodes[k3].watch {
            Some(wid) => {
                match lookup_id(&ids, wid.as_slice(), n) {
                    Some(wi) => {
                        let ghost pre = nodes@[wi as int];
                        let mut nd = replace_placeholder(&mut nodes, wi);
                        nd.observers.push(k3);
                        put_back(&mut nodes, wi, nd);
                        proof {
                            assert(nodes@[wi as int].style == pre.style);
                            assert(nodes@[wi as int].properties is Some <==> pre.properties
                                is Some);
                        }
                    },
                    None => warnings.push(UiWarning::UnknownWatch(clone_vec_copy(wid))),
                }
            },
            None => {},
        }
        let is_text = match &t.nodes[k3].node_type {
            NodeType::Text => true,
            _ => false,
        };
        let templated_text = is_text && match t.nodes[k3].content_index {
            Some(ci) => {
                proof {
                    assert(crate::template::wf_arena_node(
                        t.nodes@[k3 as int],
                        k3 as int,
                        t.content@.len() as int,
                    ));
                }
                crate::compile::is_templated(t.content[ci].as_slice())
            },
            None => false,
        };
        let qualifies = t.nodes[k3].uncompiled.len() > 0 || templated_text;
        proof {
            assert(qualifies == spec_subscribes(*t, k3 as int));
        }
        if qualifies {
            let ghost old_subs = subscribers@;
            subscribers.push(k3);
            proof {
                assert(subscribers@ =~= old_subs.push(k3));
                assert(subscribers@[subscribers@.len() - 1] == k3);
                assert(subscribers@.contains(k3));
                assert forall|m2: usize|
                    (m2 as int) < k3 + 1 && spec_subscribes(*t, m2 as int)
                        implies subscribers@.contains(m2) by {
                    if (m2 as int) < k3 as int {
                        let wi = choose|w: int| 0 <= w < old_subs.len() && old_subs[w] == m2;
                        assert(subscribers@[wi] == m2);
                    }
                }
            }
        }
        k3 = k3 + 1;
    }
    // park the attached children under the first slot
    let slot = first_slot(t);
    match slot {
        Some(si) => {
            let ghost pre = nodes@[si as int];
            let mut nd = replace_placeholder(&mut nodes, si);
            nd.slotted = clone_vec_copy(attached);
            put_back(&mut nodes, si, nd);
            proof {
                assert(nodes@[si as int].style == pre.style);
                assert(nodes@[si as int].properties is Some <==> pre.properties is Some);
                lemma_first_slot_bounds(t.nodes@, 0);
                lemma_collect_single(nodes@, si as int);
            }
        },
        None => {
            if attached.len() > 0 {
                warnings.push(UiWarning::NoSlot);
            }
            proof {
                lemma_collect_empty(nodes@);
            }
        },
    }
    RuntimeTree { nodes, root, subscribers, warnings }
}

/// An inert node used while the arena is being filled.
fn placeholder_node() -> (r: RuntimeNode)
    ensures
        r.slotted@ =~= Seq::<u64>::empty(),
{
    RuntimeNode {
        scope: 0,
        rendered: false,
        style: HtmlStyle::new(),
        properties: None,
        target: None,
        observers: Vec::new(),
        slotted: Vec::new(),
        hover_timer: HoverTimer::new(0),
        pressed_timer: PressedTimer::new(0),
    }
}

/// Takes a node out of the arena for editing, leaving a placeholder.
fn replace_placeholder(nodes: &mut Vec<RuntimeNode>, i: usize) -> (r: RuntimeNode)
    requires
        (i as int) < old(nodes)@.len(),
    ensures
        final(nodes)@.len() == old(nodes)@.len(),
        r == old(nodes)@[i as int],
        forall|m: int|
            0 <= m < final(nodes)@.len() && m != i ==> final(nodes)@[m] == old(nodes)@[m],
        final(nodes)@[i as int].slotted@ =~= Seq::<u64>::empty(),
{
    let ph = placeholder_node();
    let mut tmp = ph;
    core_mem_swap_at(nodes, i, &mut tmp);
    tmp
}

/// Puts an edited node back at its index.
fn put_back(nodes: &mut Vec<RuntimeNode>, i: usize, nd: RuntimeNode)
    requires
        (i as int) < old(nodes)@.len(),
    ensures
        final(nodes)@.len() == old(nodes)@.len(),
        final(nodes)@[i as int] == nd,
        forall|m: int|
            0 <= m < final(nodes)@.len() && m != i ==> final(nodes)@[m] == old(nodes)@[m],
{
    nodes.set(i, nd);
}

/// Swaps a node of the arena with a local value.
fn core_mem_swap_at(nodes: &mut Vec<RuntimeNode>, i: usize, v: &mut RuntimeNode)
    requires
        (i as int) < old(nodes)@.len(),
    ensures
        final(nodes)@.len() == old(nodes)@.len(),
        final(nodes)@[i as int] == *old(v),
        *final(v) == old(nodes)@[i as int],
        forall|m: int|
            0 <= m < final(nodes)@.len() && m != i ==> final(nodes)@[m] == old(nodes)@[m],
{
    let taken = nodes.swap_remove(i);
    let last = nodes.len();
    let mut put = taken;
    core::mem::swap(&mut put, v);
    nodes.push(put);
    let n2 = nodes.len();
    if i < n2 - 1 {
        let moved = nodes.swap_remove(i);
        nodes.push(moved);
    }
    proof {
        assert(final(nodes)@ =~= old(nodes)@.update(i as int, *old(v)));
    }
}

/// The first id-table entry carrying the id.
fn lookup_id(ids: &Vec<(Vec<u8>, usize)>, id: &[u8], n: usize) -> (r: Option<usize>)
    ensures
        match r {
            Some(v) => v < n,
            None => true,
        },
{
    let mut q: usize = 0;
    let mut found: Option<usize> = None;
    while q < ids.len()
        invariant
            q <= ids@.len(),
        decreases ids@.len() - q,
    {
        if slice_eq_bytes(ids[q].0.as_slice(), id) {
            found = Some(ids[q].1);
        }
        q = q + 1;
    }
    match found {
        Some(v) => {
            if v < n {
                Some(v)
            } else {
                None
            }
        },
        None => None,
    }
}

/// Executable counterpart of [`spec_first_slot`].
fn first_slot(t: &HtmlTemplate) -> (r: Option<usize>)
    ensures
        match r {
            Some(i) => spec_first_slot(*t) == Option::Some(i as int) && (i as int)
                < t.nodes@.len(),
            None => spec_first_slot(*t) is None,
        },
{
    let mut i: usize = 0;
    while i < t.nodes.len()
        invariant
            i <= t.nodes@.len(),
            spec_first_slot(*t) == spec_first_slot_from(t.nodes@, i as int),
        decreases t.nodes@.len() - i,
    {
        let is_slot = match &t.nodes[i].node_type {
            NodeType::Slot => true,
            _ => false,
        };
        if is_slot {
            return Some(i);
        }
        i = i + 1;
    }
    None
}

/// Law: hot reload re-parents exactly the previously slotted children.
/// Rebuilding from a changed template re-attaches every identity that
/// was parked under the old tree's slot, in order, with no duplication
/// and no loss, as long as the new template still offers a slot.
pub fn hotreload(t_new: &HtmlTemplate, old_tree: &RuntimeTree) -> (r: RuntimeTree)
    requires
        crate::template::wf_template(*t_new),
    ensures
        spec_first_slot(*t_new) is Some ==> spec_collect_slotted(r.nodes@)
            == spec_collect_slotted(old_tree.nodes@),
        spec_first_slot(*t_new) is None ==> spec_collect_slotted(r.nodes@) == Seq::<u64>::empty(),
{
    let attached = collect_slotted(old_tree);
    build_tree(t_new, &attached)
}

/// Gathers every parked identity of a tree, in node order.
pub fn collect_slotted(tree: &RuntimeTree) -> (r: Vec<u64>)
    ensures
        r@ == spec_collect_slotted(tree.nodes@),
{
    let mut out: Vec<u64> = Vec::new();
    let mut i: usize = 0;
    while i < tree.nodes.len()
        invariant
            i <= tree.nodes@.len(),
            out@ == spec_collect_slotted(tree.nodes@.subrange(0, i as int)),
        decreases tree.nodes@.len() - i,
    {
        let mut k: usize = 0;
        let ghost pre = out@;
        while k < tree.nodes[i].slotted.len()
            invariant
                i < tree.nodes@.len(),
                k <= tree.nodes@[i as int].slotted@.len(),
                out@ == pre + tree.nodes@[i as int].slotted@.subrange(0, k as int),
            decreases tree.nodes@[i as int].slotted@.len() - k,
        {
            out.push(tree.nodes[i].slotted[k]);
            proof {
                assert(out@ =~= pre + tree.nodes@[i as int].slotted@.subrange(0, k as int + 1));
            }
            k = k + 1;
        }
        proof {
            assert(tree.nodes@[i as int].slotted@.subrange(
                0,
                tree.nodes@[i as int].slotted@.len() as int,
            ) =~= tree.nodes@[i as int].slotted@);
            assert(tree.nodes@.subrange(0, i as int + 1).drop_last() =~= tree.nodes@.subrange(
                0,
                i as int,
            ));
            assert(tree.nodes@.subrange(0, i as int + 1).last() == tree.nodes@[i as int]);
        }
        i = i + 1;
    }
    proof {
        assert(tree.nodes@.subrange(0, tree.nodes@.len() as int) =~= tree.nodes@);
    }
    out
}


/// Which compile pass one subscriber of a changed scope gets.
#[derive(Clone, Copy, Debug, PartialEq, Eq, Structural)]
pub enum CascadePass {
    /// The subscriber owns a property map of its own: it gets the
    /// context pass, so its own descendants may react in turn.
    Context,
    /// A plain subscriber: it gets the node pass.
    Node,
}

/// The cascade rule: when a scope owner's map changes, a subscriber that
/// itself owns a property map (and is not the changed owner) is
/// revisited with the context pass; every other subscriber gets the node
/// pass. A text subscriber additionally has its content recompiled,
/// which [`text_needs_recompile`] decides.
pub fn cascade_pass(owner: usize, sub: usize, sub_owns_properties: bool) -> (r: CascadePass)
    ensures
        r == (if sub != owner && sub_owns_properties {
            CascadePass::Context
        } else {
            CascadePass::Node
        }),
{
    if sub != owner && sub_owns_properties {
        CascadePass::Context
    } else {
        CascadePass::Node
    }
}

/// Whether a subscriber's text content must be recompiled: it is a text
/// node whose raw content holds a placeholder.
pub fn text_needs_recompile(is_text: bool, raw: &[u8]) -> (r: bool)
    ensures
        r == (is_text && crate::compile::spec_is_templated(raw@)),
{
    is_text && crate::compile::is_templated(raw)
}

/// Every timer of a tree is well formed.
pub open spec fn tree_timers_wf(nodes: Seq<RuntimeNode>) -> bool {
    forall|i: int|
        0 <= i < nodes.len() ==> (#[trigger] nodes[i]).hover_timer.0.wf()
            && nodes[i].pressed_timer.0.wf()
}

/// A node after one interaction tick: its two timers moved per the
/// classification (pressing advances both, hovering advances hover and
/// retreats pressed, no contact retreats both), everything else as it
/// stood.
pub open spec fn spec_node_ticked(
    n: RuntimeNode,
    interaction: Interaction,
    delta_ms: u32,
) -> RuntimeNode {
    RuntimeNode {
        hover_timer: crate::styles::HoverTimer(
            InteractionTimer {
                elapsed_ms: (if interaction == Interaction::Idle {
                    spec_timer_backward(n.hover_timer.0, delta_ms)
                } else {
                    spec_timer_forward(n.hover_timer.0, delta_ms)
                }) as u32,
                max_ms: n.hover_timer.0.max_ms,
            },
        ),
        pressed_timer: crate::styles::PressedTimer(
            InteractionTimer {
                elapsed_ms: (if interaction == Interaction::Pressed {
                    spec_timer_forward(n.pressed_timer.0, delta_ms)
                } else {
                    spec_timer_backward(n.pressed_timer.0, delta_ms)
                }) as u32,
                max_ms: n.pressed_timer.0.max_ms,
            },
        ),
        ..n
    }
}

/// Whether an index stands in a list.
fn contains_index(list: &Vec<usize>, x: usize) -> (r: bool)
    ensures
        r == list@.contains(x),
{
    let mut i: usize = 0;
    while i < list.len()
        invariant
            i <= list@.len(),
            forall|k: int| 0 <= k < i ==> list@[k] != x,
        decreases list@.len() - i,
    {
        if list[i] == x {
            proof {
                assert(list@[i as int] == x);
            }
            return true;
        }
        i = i + 1;
    }
    proof {
        assert(forall|k: int| 0 <= k < list@.len() ==> list@[k] != x);
    }
    false
}

/// One interaction tick of a watched node: the node's own timers and
/// every observer's move in lock-step under the watched node's
/// classification; every other node stands untouched. Observers come
/// from `watch` attributes resolved at build time.
pub fn advance_interaction_timers(
    tree: &mut RuntimeTree,
    watched: usize,
    interaction: Interaction,
    delta_ms: u32,
)
    requires
        (watched as int) < old(tree).nodes@.len(),
        tree_timers_wf(old(tree).nodes@),
    ensures
        final(tree).nodes@.len() == old(tree).nodes@.len(),
        final(tree).root == old(tree).root,
        final(tree).subscribers == old(tree).subscribers,
        final(tree).warnings == old(tree).warnings,
        tree_timers_wf(final(tree).nodes@),
        forall|m: int|
            0 <= m < final(tree).nodes@.len() ==> #[trigger] final(tree).nodes@[m] == (if m
                == watched || old(tree).nodes@[watched as int].observers@.contains(m as usize) {
                spec_node_ticked(old(tree).nodes@[m], interaction, delta_ms)
            } else {
                old(tree).nodes@[m]
            }),
{
    let obs = clone_vec_copy(&tree.nodes[watched].observers);
    let n = tree.nodes.len();
    let mut m: usize = 0;
    while m < n
        invariant
            m <= n,
            (watched as int) < tree.nodes@.len(),
            n == tree.nodes@.len(),
            n == old(tree).nodes@.len(),
            obs@ == old(tree).nodes@[watched as int].observers@,
            tree.root == old(tree).root,
            tree.subscribers == old(tree).subscribers,
            tree.warnings == old(tree).warnings,
            forall|k: int|
                0 <= k < m ==> #[trigger] tree.nodes@[k] == (if k == watched || old(
                    tree,
                ).nodes@[watched as int].observers@.contains(k as usize) {
                    spec_node_ticked(old(tree).nodes@[k], interaction, delta_ms)
                } else {
                    old(tree).nodes@[k]
                }),
            forall|k: int| m <= k < n ==> #[trigger] tree.nodes@[k] == old(tree).nodes@[k],
            tree_timers_wf(old(tree).nodes@),
        decreases n - m,
    {
        if m == watched || contains_index(&obs, m) {
            let mut nd = replace_placeholder(&mut tree.nodes, m);
            proof {
                assert(nd == old(tree).nodes@[m as int]);
            }
            advance_timers(interaction, &mut nd.hover_timer, &mut nd.pressed_timer, delta_ms);
            proof {
                assert(nd == spec_node_ticked(old(tree).nodes@[m as int], interaction, delta_ms));
            }
            put_back(&mut tree.nodes, m, nd);
        }
        m = m + 1;
    }
    proof {
        assert forall|i: int|
            0 <= i < tree.nodes@.len() implies (#[trigger] tree.nodes@[i]).hover_timer.0.wf()
            && tree.nodes@[i].pressed_timer.0.wf() by {
            assert(tree.nodes@[i] == (if i == watched || old(
                tree,
            ).nodes@[watched as int].observers@.contains(i as usize) {
                spec_node_ticked(old(tree).nodes@[i], interaction, delta_ms)
            } else {
                old(tree).nodes@[i]
            }));
        }
    }
}

} // verus!
