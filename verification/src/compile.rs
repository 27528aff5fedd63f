//! Live expression compilation: placeholder substitution in text content
//! and the two per-node passes that resolve unresolved expressions
//! against a property scope. The context pass merges resolved property
//! definitions into a scope owner's own map (parent scope first, own map
//! as fallback); the node pass turns every other resolved expression
//! into a concrete style, listener, path, or tag change.

use vstd::prelude::*;
use crate::attrs::AttrOutcome;
use crate::attrs::SpecAttrOutcome;
use crate::attrs::attribute_from_parts;
use crate::attrs::spec_attribute_from_parts;
use crate::props::TemplateProperties;
use crate::scan::find_byte;
use crate::scan::ltrim_at;
use crate::scan::rtrim_at;
use crate::scan::spec_find;
use crate::scan::spec_ltrim_at;
use crate::scan::spec_rtrim_at;
use crate::template::Action;
use crate::template::AttrTokens;
use crate::template::Attribute;
use crate::template::EventKind;
use crate::template::SpecAction;
use crate::template::SpecAttrTokens;
use crate::template::SpecAttribute;

verus! {

/// Substituted text content: a left-to-right scan replaces each
/// `{ key }` placeholder with the key's value in the scope (an unbound
/// key reads as empty); text without a complete placeholder is kept as
/// it stands.
pub open spec fn spec_compile_content(
    s: Seq<u8>,
    m: Map<Seq<u8>, Seq<u8>>,
    i: int,
) -> Seq<u8>
    decreases s.len() - i when 0 <= i <= s.len() via spec_compile_content_dec
{
    match spec_find(s, i, seq![123u8]) {
        Option::Some(b) => {
            match spec_find(s, b + 1, seq![125u8]) {
                Option::Some(c) => {
                    let lt = spec_ltrim_at(s, b + 1, c);
                    let rt = spec_rtrim_at(s, lt, c);
                    let key = s.subrange(lt, rt);
                    let replaced = if m.contains_key(key) {
                        m[key]
                    } else {
                        Seq::empty()
                    };
                    s.subrange(i, b) + replaced + spec_compile_content(s, m, c + 1)
                },
                Option::None => s.subrange(i, s.len() as int),
            }
        },
        Option::None => s.subrange(i, s.len() as int),
    }
}

#[via_fn]
proof fn spec_compile_content_dec(s: Seq<u8>, m: Map<Seq<u8>, Seq<u8>>, i: int) {
    crate::scan::lemma_find_bounds(s, i, seq![123u8]);
    match spec_find(s, i, seq![123u8]) {
        Option::Some(b) => {
            crate::scan::lemma_find_bounds(s, b + 1, seq![125u8]);
        },
        Option::None => {},
    }
}

/// Substitutes resolved placeholders into raw text; the result is
/// exactly [`spec_compile_content`].
pub fn compile_content(s: &[u8], props: &TemplateProperties) -> (r: Vec<u8>)
    requires
        props.wf(),
    ensures
        r@ == spec_compile_content(s@, props.as_map(), 0),
{
    let mut out: Vec<u8> = Vec::new();
    let mut i: usize = 0;
    proof {
        assert(s@.len() <= usize::MAX) by {
            let n = s.len();
        }
    }
    loop
        invariant_except_break
            spec_compile_content(s@, props.as_map(), 0) == out@ + spec_compile_content(
                s@,
                props.as_map(),
                i as int,
            ),
        invariant
            i <= s@.len(),
            s@.len() <= usize::MAX,
            props.wf(),
        ensures
            out@ == spec_compile_content(s@, props.as_map(), 0),
        decreases s@.len() - i,
    {
        let b = match find_byte(s, i, 123) {
            Some(b) => b,
            None => {
                let ghost old_out = out@;
                let mut k: usize = i;
                while k < s.len()
                    invariant
                        i <= k <= s@.len(),
                        out@ == old_out + s@.subrange(i as int, k as int),
                    decreases s@.len() - k,
                {
                    out.push(s[k]);
                    proof {
                        assert(out@ =~= old_out + s@.subrange(i as int, k as int + 1));
                    }
                    k = k + 1;
                }
                proof {
                    assert(out@ =~= old_out + s@.subrange(i as int, s@.len() as int));
                }
                break ;
            },
        };
        let c = match find_byte(s, b + 1, 125) {
            Some(c) => c,
            None => {
                let ghost old_out = out@;
                let mut k: usize = i;
                while k < s.len()
                    invariant
                        i <= k <= s@.len(),
                        out@ == old_out + s@.subrange(i as int, k as int),
                    decreases s@.len() - k,
                {
                    out.push(s[k]);
                    proof {
                        assert(out@ =~= old_out + s@.subrange(i as int, k as int + 1));
                    }
                    k = k + 1;
                }
                proof {
                    assert(out@ =~= old_out + s@.subrange(i as int, s@.len() as int));
                }
                break ;
            },
        };
        let lt = ltrim_at(s, b + 1, c);
        let rt = rtrim_at(s, lt, c);
        let ghost old_out = out@;
        let mut k: usize = i;
        while k < b
            invariant
                i <= k <= b <= s@.len(),
                out@ == old_out + s@.subrange(i as int, k as int),
            decreases b - k,
        {
            out.push(s[k]);
            proof {
                assert(out@ =~= old_out + s@.subrange(i as int, k as int + 1));
            }
            k = k + 1;
        }
        let ghost after_lit = out@;
        match props.get(&s[lt..rt]) {
            Some(v) => {
                let ghost old_out2 = out@;
                let mut k2: usize = 0;
                while k2 < v.len()
                    invariant
                        k2 <= v@.len(),
                        out@ == old_out2 + v@.subrange(0, k2 as int),
                    decreases v@.len() - k2,
                {
                    out.push(v[k2]);
                    proof {
                        assert(out@ =~= old_out2 + v@.subrange(0, k2 as int + 1));
                    }
                    k2 = k2 + 1;
                }
                proof {
                    assert(out@ =~= old_out2 + v@);
                }
            },
            None => {},
        }
        proof {
            let mm = props.as_map();
            let key = s@.subrange(lt as int, rt as int);
            let rep: Seq<u8> = if mm.contains_key(key) {
                mm[key]
            } else {
                Seq::empty()
            };
            assert(out@ =~= after_lit + rep);
            assert(spec_compile_content(s@, mm, i as int) == s@.subrange(i as int, b as int) + rep
                + spec_compile_content(s@, mm, c as int + 1));
            assert((out@ + spec_compile_content(s@, mm, c as int + 1)) =~= (old_out + (s@.subrange(
                i as int,
                b as int,
            ) + rep + spec_compile_content(s@, mm, c as int + 1))));
        }
        i = c + 1;
    }
    out
}

/// Whether raw text holds at least one complete, nonempty `{ … }`
/// placeholder, so its node must recompile its content when the scope
/// changes.
pub open spec fn spec_is_templated(s: Seq<u8>) -> bool {
    match spec_find(s, 0, seq![123u8]) {
        Option::Some(b) => {
            match spec_find(s, b + 1, seq![125u8]) {
                Option::Some(c) => c > b + 1,
                Option::None => false,
            }
        },
        Option::None => false,
    }
}

/// Executable counterpart of [`spec_is_templated`].
pub fn is_templated(s: &[u8]) -> (r: bool)
    ensures
        r == spec_is_templated(s@),
{
    proof {
        assert(s@.len() <= usize::MAX) by {
            let n = s.len();
        }
    }
    match find_byte(s, 0, 123) {
        Some(b) => {
            match find_byte(s, b + 1, 125) {
                Some(c) => c > b + 1,
                None => false,
            }
        },
        None => false,
    }
}

/// A resolved expression: the placeholder key looked up in a scope and
/// the value interpreted as if written literally, with the
/// custom-element fallback (so an unrecognized name resolves to a
/// property definition rather than an error).
pub open spec fn spec_compile_expression(
    t: crate::template::SpecAttrTokens,
    m: Map<Seq<u8>, Seq<u8>>,
) -> Option<crate::attrs::SpecAttrOutcome> {
    if m.contains_key(t.key) {
        Option::Some(spec_attribute_from_parts(t.prefix, t.ident, m[t.key], true))
    } else {
        Option::None
    }
}

/// Resolves one expression against a scope; the result is exactly
/// [`spec_compile_expression`]. An unbound key yields nothing and the
/// expression stays inert.
pub fn compile_expression(t: &AttrTokens, scope: &TemplateProperties) -> (r: Option<AttrOutcome>)
    requires
        scope.wf(),
    ensures
        match r {
            Some(o) => spec_compile_expression(t@, scope.as_map()) == Option::Some(o@),
            None => spec_compile_expression(t@, scope.as_map()) is None,
        },
{
    match scope.get(t.key.as_slice()) {
        Some(v) => {
            let pfx: Option<&[u8]> = match &t.prefix {
                Some(p) => Some(p.as_slice()),
                None => None,
            };
            Some(attribute_from_parts(pfx, t.ident.as_slice(), v.as_slice(), true))
        },
        None => None,
    }
}

/// The sequence of mathematical expression tokens behind a token list.
pub open spec fn exprs_view(s: Seq<AttrTokens>) -> Seq<SpecAttrTokens> {
    s.map_values(|t: AttrTokens| t@)
}

/// How the context pass resolves one expression: against the parent
/// scope's map first, against the owner's own map only when the parent
/// has no binding.
pub open spec fn spec_context_resolved(
    t: SpecAttrTokens,
    parent: Map<Seq<u8>, Seq<u8>>,
    own: Map<Seq<u8>, Seq<u8>>,
) -> Option<SpecAttrOutcome> {
    match spec_compile_expression(t, parent) {
        Option::Some(o) => Option::Some(o),
        Option::None => spec_compile_expression(t, own),
    }
}

/// The owner's map after the context pass, with whether anything was
/// merged: each expression in order, resolved parent-first, merges its
/// resolved property definition into the map; every other outcome leaves
/// the map as it stands. Later expressions see earlier merges.
pub open spec fn spec_compile_context(
    exprs: Seq<SpecAttrTokens>,
    parent: Map<Seq<u8>, Seq<u8>>,
    own: Map<Seq<u8>, Seq<u8>>,
) -> (Map<Seq<u8>, Seq<u8>>, bool)
    decreases exprs.len(),
{
    if exprs.len() == 0 {
        (own, false)
    } else {
        let stepped = match spec_context_resolved(exprs[0], parent, own) {
            Option::Some(
                SpecAttrOutcome::Accepted(SpecAttribute::PropertyDefinition(k, v)),
            ) => (own.insert(k, v), true),
            _ => (own, false),
        };
        let rest = spec_compile_context(exprs.drop_first(), parent, stepped.0);
        (rest.0, stepped.1 || rest.1)
    }
}

/// The context pass only adds or overwrites bindings; no key is removed.
#[verifier::rlimit(100)]
#[verifier::spinoff_prover]
pub proof fn lemma_context_pass_additive(
    exprs: Seq<SpecAttrTokens>,
    parent: Map<Seq<u8>, Seq<u8>>,
    own: Map<Seq<u8>, Seq<u8>>,
)
    ensures
        forall|k: Seq<u8>|
            own.contains_key(k) ==> #[trigger] spec_compile_context(
                exprs,
                parent,
                own,
            ).0.contains_key(k),
    decreases exprs.len(),
{
    if exprs.len() > 0 {
        match spec_context_resolved(exprs[0], parent, own) {
            Option::Some(
                SpecAttrOutcome::Accepted(SpecAttribute::PropertyDefinition(k, v)),
            ) => {
                lemma_context_pass_additive(exprs.drop_first(), parent, own.insert(k, v));
                assert forall|q: Seq<u8>|
                    own.contains_key(q) implies #[trigger] spec_compile_context(
                    exprs,
                    parent,
                    own,
                ).0.contains_key(q) by {
                    assert(own.insert(k, v).contains_key(q));
                    assert(spec_compile_context(exprs.drop_first(), parent, own.insert(k, v))
                        .0.contains_key(q));
                    assert(spec_compile_context(exprs, parent, own).0 == spec_compile_context(
                        exprs.drop_first(),
                        parent,
                        own.insert(k, v),
                    ).0);
                }
            },
            _ => {
                lemma_context_pass_additive(exprs.drop_first(), parent, own);
                assert forall|q: Seq<u8>|
                    own.contains_key(q) implies #[trigger] spec_compile_context(
                    exprs,
                    parent,
                    own,
                ).0.contains_key(q) by {
                    assert(spec_compile_context(exprs.drop_first(), parent, own).0.contains_key(
                        q,
                    ));
                    assert(spec_compile_context(exprs, parent, own).0 == spec_compile_context(
                        exprs.drop_first(),
                        parent,
                        own,
                    ).0);
                }
            },
        }
    }
}

/// The context pass over one scope owner: every expression is resolved
/// against the parent scope first and the owner's own map as fallback;
/// each resolved property definition is merged into the owner's own map,
/// an inherited value overriding a declared default of the same key.
/// The result is exactly [`spec_compile_context`]; in particular the
/// merge is additive — keys are never removed.
#[verifier::rlimit(100)]
#[verifier::spinoff_prover]
pub fn compile_context(
    expressions: &Vec<AttrTokens>,
    parent: &TemplateProperties,
    own: &mut TemplateProperties,
) -> (changed: bool)
    requires
        parent.wf(),
        old(own).wf(),
    ensures
        final(own).wf(),
        final(own).as_map() == spec_compile_context(
            exprs_view(expressions@),
            parent.as_map(),
            old(own).as_map(),
        ).0,
        changed == spec_compile_context(
            exprs_view(expressions@),
            parent.as_map(),
            old(own).as_map(),
        ).1,
        forall|k: Seq<u8>|
            old(own).as_map().contains_key(k) ==> #[trigger] final(own).as_map().contains_key(k),
{
    let ghost full = exprs_view(expressions@);
    let ghost pm = parent.as_map();
    let ghost m0 = old(own).as_map();
    proof {
        assert(full.subrange(0, full.len() as int) =~= full);
    }
    let mut changed = false;
    let mut i: usize = 0;
    while i < expressions.len()
        invariant
            i <= expressions@.len(),
            parent.wf(),
            own.wf(),
            full == exprs_view(expressions@),
            pm == parent.as_map(),
            spec_compile_context(full, pm, m0).0 == spec_compile_context(
                full.subrange(i as int, full.len() as int),
                pm,
                own.as_map(),
            ).0,
            spec_compile_context(full, pm, m0).1 == (changed || spec_compile_context(
                full.subrange(i as int, full.len() as int),
                pm,
                own.as_map(),
            ).1),
            forall|k: Seq<u8>| m0.contains_key(k) ==> #[trigger] own.as_map().contains_key(k),
        decreases expressions@.len() - i,
    {
        let ghost rem = full.subrange(i as int, full.len() as int);
        proof {
            assert(rem[0] == expressions@[i as int]@);
            assert(rem.drop_first() =~= full.subrange(i as int + 1, full.len() as int));
        }
        let from_parent = compile_expression(&expressions[i], parent);
        let resolved = match from_parent {
            Some(o) => Some(o),
            None => compile_expression(&expressions[i], own),
        };
        match resolved {
            Some(AttrOutcome::Accepted(Attribute::PropertyDefinition(k, v))) => {
                own.set(k, v);
                changed = true;
            },
            _ => {},
        }
        i = i + 1;
    }
    proof {
        assert(full.subrange(full.len() as int, full.len() as int) =~= Seq::<
            SpecAttrTokens,
        >::empty());
        lemma_context_pass_additive(full, pm, m0);
    }
    changed
}

/// What the node pass changed on a node, beyond its style state: a new
/// asset path to load, free-form tag updates, replaced listeners, and
/// the count of expressions that resolved to something that cannot be
/// dynamic (reported, never fatal).
pub struct NodePassReport {
    pub new_src: Option<Vec<u8>>,
    pub not_dynamic: usize,
    pub unresolved: usize,
}

/// The sequence of mathematical listener values behind a listener list.
pub open spec fn actions_view(s: Seq<Action>) -> Seq<SpecAction> {
    s.map_values(|a: Action| a@)
}

/// The view of an optional owned byte string.
pub open spec fn opt_bytes_view(o: Option<Vec<u8>>) -> Option<Seq<u8>> {
    match o {
        Option::Some(v) => Option::Some(v@),
        Option::None => Option::None,
    }
}

/// The mathematical state the node pass folds over: the node's style
/// state, tag map, listener list, the last resolved asset path, and the
/// two report counters.
pub struct SpecNodeState {
    pub style: crate::styles::SpecHtmlStyle,
    pub tags: Map<Seq<u8>, Seq<u8>>,
    pub listeners: Seq<SpecAction>,
    pub new_src: Option<Seq<u8>>,
    pub not_dynamic: int,
    pub unresolved: int,
}

/// A counter bumped by one, held at the machine limit.
pub open spec fn spec_bump(n: int) -> int {
    if n < usize::MAX {
        n + 1
    } else {
        n
    }
}

/// Replacing a listener substitutes the first entry of the action's
/// event, or appends when the event had none.
pub open spec fn spec_replace_listener(l: Seq<SpecAction>, a: SpecAction) -> Seq<SpecAction>
    decreases l.len(),
{
    if l.len() == 0 {
        seq![a]
    } else if l[0].kind == a.kind {
        seq![a] + l.drop_first()
    } else {
        seq![l[0]] + spec_replace_listener(l.drop_first(), a)
    }
}

/// How one expression lands in the node state: a resolved style merges
/// into the style state, an action replaces its event's listener, a path
/// becomes the new asset path, a tag is inserted into the tag map; any
/// other resolved payload counts as not-dynamic and an unbound key as
/// unresolved, both leaving the node unchanged.
pub open spec fn spec_node_step(
    st: SpecNodeState,
    t: SpecAttrTokens,
    scope: Map<Seq<u8>, Seq<u8>>,
) -> SpecNodeState {
    match spec_compile_expression(t, scope) {
        Option::Some(SpecAttrOutcome::Accepted(SpecAttribute::Style(d))) => SpecNodeState {
            style: crate::styles::spec_add_style_attr(st.style, d),
            ..st
        },
        Option::Some(SpecAttrOutcome::Accepted(SpecAttribute::Action(a))) => SpecNodeState {
            listeners: spec_replace_listener(st.listeners, a),
            ..st
        },
        Option::Some(SpecAttrOutcome::Accepted(SpecAttribute::Path(p))) => SpecNodeState {
            new_src: Option::Some(p),
            ..st
        },
        Option::Some(SpecAttrOutcome::Accepted(SpecAttribute::Tag(k, v))) => SpecNodeState {
            tags: st.tags.insert(k, v),
            ..st
        },
        Option::Some(_) => SpecNodeState { not_dynamic: spec_bump(st.not_dynamic), ..st },
        Option::None => SpecNodeState { unresolved: spec_bump(st.unresolved), ..st },
    }
}

/// The node state after the whole pass, expressions in order.
pub open spec fn spec_compile_node(
    exprs: Seq<SpecAttrTokens>,
    scope: Map<Seq<u8>, Seq<u8>>,
    st: SpecNodeState,
) -> SpecNodeState
    decreases exprs.len(),
{
    if exprs.len() == 0 {
        st
    } else {
        spec_compile_node(exprs.drop_first(), scope, spec_node_step(st, exprs[0], scope))
    }
}

/// The node pass over one plain node: every expression is resolved
/// against the node's effective scope and dispatched by payload kind,
/// exactly as [`spec_compile_node`] folds [`spec_node_step`] over the
/// expression list.
#[verifier::rlimit(100)]
#[verifier::spinoff_prover]
pub fn compile_node(
    expressions: &Vec<AttrTokens>,
    scope: &TemplateProperties,
    style: &mut crate::styles::HtmlStyle,
    tags: &mut TemplateProperties,
    listeners: &mut Vec<Action>,
) -> (report: NodePassReport)
    requires
        scope.wf(),
        old(tags).wf(),
    ensures
        final(tags).wf(),
        ({
            let end = spec_compile_node(
                exprs_view(expressions@),
                scope.as_map(),
                SpecNodeState {
                    style: old(style)@,
                    tags: old(tags).as_map(),
                    listeners: actions_view(old(listeners)@),
                    new_src: Option::None,
                    not_dynamic: 0,
                    unresolved: 0,
                },
            );
            &&& final(style)@ == end.style
            &&& final(tags).as_map() == end.tags
            &&& actions_view(final(listeners)@) == end.listeners
            &&& opt_bytes_view(report.new_src) == end.new_src
            &&& report.not_dynamic as int == end.not_dynamic
            &&& report.unresolved as int == end.unresolved
        }),
{
    let ghost full = exprs_view(expressions@);
    let ghost sm = scope.as_map();
    let ghost st0 = SpecNodeState {
        style: old(style)@,
        tags: old(tags).as_map(),
        listeners: actions_view(old(listeners)@),
        new_src: Option::None,
        not_dynamic: 0,
        unresolved: 0,
    };
    proof {
        assert(full.subrange(0, full.len() as int) =~= full);
    }
    let mut report = NodePassReport { new_src: None, not_dynamic: 0, unresolved: 0 };
    let mut i: usize = 0;
    while i < expressions.len()
        invariant
            i <= expressions@.len(),
            scope.wf(),
            tags.wf(),
            full == exprs_view(expressions@),
            sm == scope.as_map(),
            spec_compile_node(full, sm, st0) == spec_compile_node(
                full.subrange(i as int, full.len() as int),
                sm,
                SpecNodeState {
                    style: style@,
                    tags: tags.as_map(),
                    listeners: actions_view(listeners@),
                    new_src: opt_bytes_view(report.new_src),
                    not_dynamic: report.not_dynamic as int,
                    unresolved: report.unresolved as int,
                },
            ),
        decreases expressions@.len() - i,
    {
        let ghost rem = full.subrange(i as int, full.len() as int);
        proof {
            assert(rem[0] == expressions@[i as int]@);
            assert(rem.drop_first() =~= full.subrange(i as int + 1, full.len() as int));
        }
        match compile_expression(&expressions[i], scope) {
            Some(AttrOutcome::Accepted(attr)) => {
                match attr {
                    Attribute::Style(d) => style.add_style_attr(d),
                    Attribute::Action(a) => replace_listener(listeners, a),
                    Attribute::Path(p) => report.new_src = Some(p),
                    Attribute::Tag(k, v) => tags.set(k, v),
                    _ => {
                        if report.not_dynamic < usize::MAX {
                            report.not_dynamic = report.not_dynamic + 1;
                        }
                    },
                }
            },
            Some(AttrOutcome::Rejected(_)) => {
                if report.not_dynamic < usize::MAX {
                    report.not_dynamic = report.not_dynamic + 1;
                }
            },
            None => {
                if report.unresolved < usize::MAX {
                    report.unresolved = report.unresolved + 1;
                }
            },
        }
        i = i + 1;
    }
    proof {
        assert(full.subrange(full.len() as int, full.len() as int) =~= Seq::<
            SpecAttrTokens,
        >::empty());
    }
    report
}

/// Replaces the listener of the action's event, or appends one when the
/// event had none; the result is exactly [`spec_replace_listener`].
fn replace_listener(listeners: &mut Vec<Action>, a: Action)
    ensures
        actions_view(final(listeners)@) == spec_replace_listener(
            actions_view(old(listeners)@),
            a@,
        ),
{
    let ghost av = a@;
    let kind = a.kind;
    let mut i: usize = 0;
    while i < listeners.len()
        invariant
            i <= listeners@.len(),
            listeners@ == old(listeners)@,
            av == a@,
            kind == a.kind,
            forall|k: int| 0 <= k < i ==> (#[trigger] actions_view(listeners@)[k]).kind != a@.kind,
        decreases listeners@.len() - i,
    {
        proof {
            assert(actions_view(listeners@)[i as int] == listeners@[i as int]@);
        }
        if kinds_eq(listeners[i].kind, kind) {
            let ghost li = i as int;
            let ghost old_view = actions_view(listeners@);
            proof {
                assert(actions_view(listeners@)[i as int] == listeners@[i as int]@);
                assert(old_view[li] == listeners@[li]@);
                assert(listeners@[li]@.kind == listeners@[li].kind);
                assert(old_view[li].kind == av.kind);
            }
            listeners.set(i, a);
            proof {
                lemma_replace_listener_update(old_view, av, li);
                assert forall|k: int|
                    0 <= k < listeners@.len() implies #[trigger] actions_view(listeners@)[k]
                    == old_view.update(li, av)[k] by {
                    assert(actions_view(listeners@)[k] == listeners@[k]@);
                    if k != li {
                        assert(listeners@[k] == old(listeners)@[k]);
                        assert(old_view[k] == old(listeners)@[k]@);
                    }
                }
                assert(actions_view(listeners@) =~= old_view.update(li, av));
            }
            return ;
        }
        proof {
            assert forall|k: int|
                0 <= k < i + 1 implies (#[trigger] actions_view(listeners@)[k]).kind
                != a@.kind by {
                assert(actions_view(listeners@)[k] == listeners@[k]@);
            }
        }
        i = i + 1;
    }
    let ghost old_view = actions_view(listeners@);
    listeners.push(a);
    proof {
        lemma_replace_listener_push(old_view, av);
        assert forall|k: int|
            0 <= k < listeners@.len() implies #[trigger] actions_view(listeners@)[k]
            == old_view.push(av)[k] by {
            assert(actions_view(listeners@)[k] == listeners@[k]@);
            if k < listeners@.len() - 1 {
                assert(old_view[k] == old(listeners)@[k]@);
            }
        }
        assert(actions_view(listeners@) =~= old_view.push(av));
    }
}

/// Substituting at the first matching event realizes
/// [`spec_replace_listener`].
proof fn lemma_replace_listener_update(l: Seq<SpecAction>, a: SpecAction, i: int)
    requires
        0 <= i < l.len(),
        l[i].kind == a.kind,
        forall|k: int| 0 <= k < i ==> (#[trigger] l[k]).kind != a.kind,
    ensures
        spec_replace_listener(l, a) == l.update(i, a),
    decreases i,
{
    if i == 0 {
        assert(spec_replace_listener(l, a) =~= l.update(0, a));
    } else {
        lemma_replace_listener_update(l.drop_first(), a, i - 1);
        assert(l.drop_first().update(i - 1, a) =~= l.update(i, a).drop_first());
        assert(spec_replace_listener(l, a) =~= l.update(i, a));
    }
}

/// Appending when no event matches realizes [`spec_replace_listener`].
proof fn lemma_replace_listener_push(l: Seq<SpecAction>, a: SpecAction)
    requires
        forall|k: int| 0 <= k < l.len() ==> (#[trigger] l[k]).kind != a.kind,
    ensures
        spec_replace_listener(l, a) == l.push(a),
    decreases l.len(),
{
    if l.len() == 0 {
        assert(spec_replace_listener(l, a) =~= l.push(a));
    } else {
        lemma_replace_listener_push(l.drop_first(), a);
        assert(seq![l[0]] + l.drop_first().push(a) =~= l.push(a));
    }
}

/// Whether two event kinds are the same event.
fn kinds_eq(a: EventKind, b: EventKind) -> (r: bool)
    ensures
        r == (a == b),
{
    match (a, b) {
        (EventKind::OnEnter, EventKind::OnEnter) => true,
        (EventKind::OnExit, EventKind::OnExit) => true,
        (EventKind::OnPress, EventKind::OnPress) => true,
        (EventKind::OnSpawn, EventKind::OnSpawn) => true,
        (EventKind::OnChange, EventKind::OnChange) => true,
        _ => false,
    }
}

} // verus!
