//! The recursive-descent markup parser: comments, an optional processing
//! instruction, one element tree with prefixed attributes, and the two
//! reserved element names `property` and `name`. The whole grammar has a
//! mathematical mirror, and [`parse_template`] returns exactly what the
//! mirror says for its input: a document is accepted if and only if the
//! mirror accepts it, and the template it yields is the mirror's.

use vstd::prelude::*;
use vstd::string::StringSliceAdditionalSpecFns;
use crate::attrs::AttrOutcome;
use crate::attrs::SpecAttrOutcome;
use crate::attrs::attribute_from_parts;
use crate::attrs::spec_attribute_from_parts;
use crate::props::TemplateProperties;
use crate::scan::find_byte;
use crate::scan::lemma_find_bounds;
use crate::scan::lemma_skip_ws_bounds;
use crate::scan::lemma_snake_end_bounds;
use crate::scan::ltrim_at;
use crate::scan::rtrim_at;
use crate::scan::skip_ws;
use crate::scan::snake_end;
use crate::scan::spec_find;
use crate::scan::spec_ltrim_at;
use crate::scan::spec_rtrim_at;
use crate::scan::spec_skip_ws;
use crate::scan::spec_snake_end;
use crate::style::SpecStyleDirective;
use crate::style::StyleDirective;
use crate::template::Action;
use crate::template::AttrTokens;
use crate::template::Attribute;
use crate::template::HtmlTemplate;
use crate::template::NodeType;
use crate::template::ParseError;
use crate::template::ParseErrorKind;
use crate::template::SpecNodeType;
use crate::template::SpecTemplate;
use crate::template::SpecXNode;
use crate::template::XNode;
use crate::template::view_opt_bytes;
use crate::template::wf_arena;
use crate::template::wf_arena_node;
use crate::util::bytes_range_to_vec;
use crate::util::slice_eq_bytes;

verus! {

/// Whether the two bytes `b0 b1` stand at position `i`.
pub open spec fn spec_two_at(s: Seq<u8>, i: int, b0: u8, b1: u8) -> bool {
    i + 2 <= s.len() && s[i] == b0 && s[i + 1] == b1
}

/// Executable counterpart of [`spec_two_at`].
fn two_bytes_at(s: &[u8], i: usize, b0: u8, b1: u8) -> (r: bool)
    requires
        i <= s@.len(),
    ensures
        r == spec_two_at(s@, i as int, b0, b1),
{
    i < s.len() && s[i] == b0 && i + 1 < s.len() && s[i + 1] == b1
}

/// The first position at or after `i` where the two bytes `b0 b1` stand.
fn find_two(s: &[u8], i: usize, b0: u8, b1: u8) -> (r: Option<usize>)
    requires
        i <= s@.len(),
    ensures
        match r {
            Some(j) => {
                &&& spec_find(s@, i as int, seq![b0, b1]) == Option::Some(j as int)
                &&& i <= j && j + 2 <= s@.len()
            },
            None => spec_find(s@, i as int, seq![b0, b1]) is None,
        },
{
    let mut j: usize = i;
    proof {
        assert(s@.len() <= usize::MAX) by {
            let n = s.len();
        }
    }
    while j < s.len() && s.len() - j >= 2
        invariant
            i <= j <= s@.len(),
            s@.len() <= usize::MAX,
            spec_find(s@, i as int, seq![b0, b1]) == spec_find(s@, j as int, seq![b0, b1]),
        decreases s@.len() - j,
    {
        if s[j] == b0 && s[j + 1] == b1 {
            proof {
                assert(s@.subrange(j as int, j as int + 2) =~= seq![b0, b1]);
            }
            return Some(j);
        }
        proof {
            assert(s@.subrange(j as int, j as int + 2) != seq![b0, b1]) by {
                if s@.subrange(j as int, j as int + 2) == seq![b0, b1] {
                    assert(s@.subrange(j as int, j as int + 2)[0] == b0);
                    assert(s@.subrange(j as int, j as int + 2)[1] == b1);
                }
            }
        }
        j = j + 1;
    }
    None
}

/// The first position at or after `i` where the three bytes `b0 b1 b2`
/// stand.
fn find_three(s: &[u8], i: usize, b0: u8, b1: u8, b2: u8) -> (r: Option<usize>)
    requires
        i <= s@.len(),
    ensures
        match r {
            Some(j) => {
                &&& spec_find(s@, i as int, seq![b0, b1, b2]) == Option::Some(j as int)
                &&& i <= j && j + 3 <= s@.len()
            },
            None => spec_find(s@, i as int, seq![b0, b1, b2]) is None,
        },
{
    let mut j: usize = i;
    proof {
        assert(s@.len() <= usize::MAX) by {
            let n = s.len();
        }
    }
    while j < s.len() && s.len() - j >= 3
        invariant
            i <= j <= s@.len(),
            s@.len() <= usize::MAX,
            spec_find(s@, i as int, seq![b0, b1, b2]) == spec_find(s@, j as int, seq![b0, b1, b2]),
        decreases s@.len() - j,
    {
        if s[j] == b0 && s[j + 1] == b1 && s[j + 2] == b2 {
            proof {
                assert(s@.subrange(j as int, j as int + 3) =~= seq![b0, b1, b2]);
            }
            return Some(j);
        }
        proof {
            assert(s@.subrange(j as int, j as int + 3) != seq![b0, b1, b2]) by {
                if s@.subrange(j as int, j as int + 3) == seq![b0, b1, b2] {
                    assert(s@.subrange(j as int, j as int + 3)[0] == b0);
                    assert(s@.subrange(j as int, j as int + 3)[1] == b1);
                    assert(s@.subrange(j as int, j as int + 3)[2] == b2);
                }
            }
        }
        j = j + 1;
    }
    None
}

/// Trivia between elements: whitespace and complete `<!-- … -->`
/// comments; the scan stops before anything else, including an
/// unterminated comment opener.
pub open spec fn spec_skip_trivia(s: Seq<u8>, i: int) -> int
    decreases s.len() - i when 0 <= i <= s.len() via spec_skip_trivia_dec
{
    let w = spec_skip_ws(s, i);
    if w + 4 <= s.len() && s[w] == 60 && s[w + 1] == 33 && s[w + 2] == 45 && s[w + 3] == 45 {
        match spec_find(s, w + 4, seq![45u8, 45u8, 62u8]) {
            Option::Some(c) => spec_skip_trivia(s, c + 3),
            Option::None => w,
        }
    } else {
        w
    }
}

#[via_fn]
proof fn spec_skip_trivia_dec(s: Seq<u8>, i: int) {
    lemma_skip_ws_bounds(s, i);
    let w = spec_skip_ws(s, i);
    if w + 4 <= s.len() && s[w] == 60 && s[w + 1] == 33 && s[w + 2] == 45 && s[w + 3] == 45 {
        lemma_find_bounds(s, w + 4, seq![45u8, 45u8, 62u8]);
    }
}

pub proof fn lemma_skip_trivia_bounds(s: Seq<u8>, i: int)
    requires
        0 <= i <= s.len(),
    ensures
        i <= spec_skip_trivia(s, i) <= s.len(),
    decreases s.len() - i,
{
    lemma_skip_ws_bounds(s, i);
    let w = spec_skip_ws(s, i);
    if w + 4 <= s.len() && s[w] == 60 && s[w + 1] == 33 && s[w + 2] == 45 && s[w + 3] == 45 {
        match spec_find(s, w + 4, seq![45u8, 45u8, 62u8]) {
            Option::Some(c) => {
                lemma_find_bounds(s, w + 4, seq![45u8, 45u8, 62u8]);
                lemma_skip_trivia_bounds(s, c + 3);
            },
            Option::None => {},
        }
    }
}

/// Executable counterpart of [`spec_skip_trivia`].
fn skip_trivia(s: &[u8], i: usize) -> (r: usize)
    requires
        i <= s@.len(),
    ensures
        r == spec_skip_trivia(s@, i as int),
        i <= r <= s@.len(),
{
    let mut j: usize = i;
    proof {
        assert(s@.len() <= usize::MAX) by {
            let n = s.len();
        }
    }
    loop
        invariant
            i <= j <= s@.len(),
            s@.len() <= usize::MAX,
            spec_skip_trivia(s@, i as int) == spec_skip_trivia(s@, j as int),
        ensures
            j == spec_skip_trivia(s@, i as int),
            i <= j <= s@.len(),
        decreases s@.len() - j,
    {
        let w = skip_ws(s, j);
        proof {
            lemma_skip_ws_bounds(s@, j as int);
            assert(spec_skip_ws(s@, w as int) == w);
        }
        let opens = w < s.len() && s.len() - w >= 4 && s[w] == 60 && s[w + 1] == 33 && s[w + 2]
            == 45 && s[w + 3] == 45;
        if opens {
            match find_three(s, w + 4, 45, 45, 62) {
                Some(c) => {
                    proof {
                        lemma_skip_trivia_bounds(s@, c as int + 3);
                    }
                    j = c + 3;
                },
                None => {
                    proof {
                        assert(spec_skip_trivia(s@, j as int) == w);
                        assert(spec_skip_trivia(s@, w as int) == w);
                    }
                    j = w;
                    break ;
                },
            }
        } else {
            proof {
                assert(spec_skip_trivia(s@, j as int) == w);
                assert(spec_skip_trivia(s@, w as int) == w);
            }
            j = w;
            break ;
        }
    }
    j
}

/// One raw attribute, as byte ranges into the input: an optional prefix,
/// the key, and the quoted value.
struct RawAttr {
    pfx: Option<(usize, usize)>,
    key: (usize, usize),
    val: (usize, usize),
}

/// The mathematical value of a [`RawAttr`]: the three ranges as integers.
spec fn raw_attr_view(r: RawAttr) -> (Option<(int, int)>, (int, int), (int, int)) {
    (
        match r.pfx {
            Option::Some((a, b)) => Option::Some((a as int, b as int)),
            Option::None => Option::None,
        },
        (r.key.0 as int, r.key.1 as int),
        (r.val.0 as int, r.val.1 as int),
    )
}

/// The integer-range view of a raw attribute list.
spec fn raw_attrs_view(s: Seq<RawAttr>) -> Seq<
    (Option<(int, int)>, (int, int), (int, int)),
> {
    s.map_values(|r: RawAttr| raw_attr_view(r))
}

/// The attribute list of a start tag, read from `i` on: each attribute
/// is an optional `prefix:`, a nonempty key, `="`, and a value up to the
/// closing quote; the scan stops before the first thing that is not an
/// attribute and reports where it stopped.
pub open spec fn spec_scan_attrs(s: Seq<u8>, i: int) -> (
    Seq<(Option<(int, int)>, (int, int), (int, int))>,
    int,
)
    decreases s.len() - i when 0 <= i <= s.len() via spec_scan_attrs_dec
{
    let a = spec_skip_ws(s, i);
    let pe = spec_snake_end(s, a);
    let (pfx, ks): (Option<(int, int)>, int) = if pe < s.len() && s[pe] == 58 {
        (Option::Some((a, pe)), pe + 1)
    } else {
        (Option::None, a)
    };
    let ke = spec_snake_end(s, ks);
    if ke == ks || !(ke < s.len() && s[ke] == 61) || !(ke + 1 < s.len() && s[ke + 1] == 34) {
        (Seq::empty(), i)
    } else {
        match spec_find(s, ke + 2, seq![34u8]) {
            Option::Some(q) => {
                let rest = spec_scan_attrs(s, q + 1);
                (seq![(pfx, (ks, ke), (ke + 2, q))] + rest.0, rest.1)
            },
            Option::None => (Seq::empty(), i),
        }
    }
}

#[via_fn]
proof fn spec_scan_attrs_dec(s: Seq<u8>, i: int) {
    lemma_skip_ws_bounds(s, i);
    let a = spec_skip_ws(s, i);
    lemma_snake_end_bounds(s, a);
    let pe = spec_snake_end(s, a);
    let ks: int = if pe < s.len() && s[pe] == 58 {
        pe + 1
    } else {
        a
    };
    lemma_snake_end_bounds(s, ks);
    let ke = spec_snake_end(s, ks);
    if !(ke == ks || !(ke < s.len() && s[ke] == 61) || !(ke + 1 < s.len() && s[ke + 1] == 34)) {
        lemma_find_bounds(s, ke + 2, seq![34u8]);
    }
}

/// Every attribute range of the scan lies inside the input and is
/// ordered.
pub proof fn lemma_scan_attrs_bounds(s: Seq<u8>, i: int)
    requires
        0 <= i <= s.len(),
    ensures
        i <= spec_scan_attrs(s, i).1 <= s.len(),
        forall|k: int|
            0 <= k < spec_scan_attrs(s, i).0.len() ==> raw_attr_ranges_wf(
                #[trigger] spec_scan_attrs(s, i).0[k],
                s.len() as int,
            ),
    decreases s.len() - i,
{
    lemma_skip_ws_bounds(s, i);
    let a = spec_skip_ws(s, i);
    lemma_snake_end_bounds(s, a);
    let pe = spec_snake_end(s, a);
    let ks: int = if pe < s.len() && s[pe] == 58 {
        pe + 1
    } else {
        a
    };
    lemma_snake_end_bounds(s, ks);
    let ke = spec_snake_end(s, ks);
    if !(ke == ks || !(ke < s.len() && s[ke] == 61) || !(ke + 1 < s.len() && s[ke + 1] == 34)) {
        lemma_find_bounds(s, ke + 2, seq![34u8]);
        match spec_find(s, ke + 2, seq![34u8]) {
            Option::Some(q) => {
                lemma_scan_attrs_bounds(s, q + 1);
                let whole = spec_scan_attrs(s, i).0;
                let tail = spec_scan_attrs(s, q + 1).0;
                assert forall|k: int|
                    0 <= k < whole.len() implies raw_attr_ranges_wf(
                    #[trigger] whole[k],
                    s.len() as int,
                ) by {
                    if k > 0 {
                        assert(whole[k] == tail[k - 1]);
                    }
                }
            },
            Option::None => {},
        }
    }
}

/// An attribute's ranges lie inside the input and are ordered.
pub open spec fn raw_attr_ranges_wf(
    r: (Option<(int, int)>, (int, int), (int, int)),
    len: int,
) -> bool {
    &&& (match r.0 {
        Option::Some((a, b)) => 0 <= a <= b <= len,
        Option::None => true,
    })
    &&& 0 <= r.1.0 <= r.1.1 <= len
    &&& 0 <= r.2.0 <= r.2.1 <= len
}

/// Executable counterpart of [`spec_scan_attrs`].
fn scan_attrs(s: &[u8], i: usize) -> (r: (Vec<RawAttr>, usize))
    requires
        i <= s@.len(),
    ensures
        i <= r.1 <= s@.len(),
        spec_scan_attrs(s@, i as int) == (raw_attrs_view(r.0@), r.1 as int),
        forall|k: int|
            0 <= k < r.0@.len() ==> raw_attr_ranges_wf(
                #[trigger] raw_attrs_view(r.0@)[k],
                s@.len() as int,
            ),
{
    let mut attrs: Vec<RawAttr> = Vec::new();
    let mut j: usize = i;
    proof {
        assert(s@.len() <= usize::MAX) by {
            let n = s.len();
        }
    }
    loop
        invariant
            i <= j <= s@.len(),
            s@.len() <= usize::MAX,
            spec_scan_attrs(s@, i as int).0 == raw_attrs_view(attrs@) + spec_scan_attrs(
                s@,
                j as int,
            ).0,
            spec_scan_attrs(s@, i as int).1 == spec_scan_attrs(s@, j as int).1,
            forall|k: int|
                0 <= k < attrs@.len() ==> raw_attr_ranges_wf(
                    #[trigger] raw_attrs_view(attrs@)[k],
                    s@.len() as int,
                ),
        ensures
            j <= s@.len(),
            i <= j,
            spec_scan_attrs(s@, i as int) == (raw_attrs_view(attrs@), j as int),
            forall|k: int|
                0 <= k < attrs@.len() ==> raw_attr_ranges_wf(
                    #[trigger] raw_attrs_view(attrs@)[k],
                    s@.len() as int,
                ),
        decreases s@.len() - j,
    {
        let a = skip_ws(s, j);
        let pe = snake_end(s, a);
        let (pfx, ks): (Option<(usize, usize)>, usize) = if pe < s.len() && s[pe] == 58 {
            (Some((a, pe)), pe + 1)
        } else {
            (None, a)
        };
        let ke = snake_end(s, ks);
        if ke == ks || !(ke < s.len() && s[ke] == 61) || !(ke + 1 < s.len() && s[ke + 1] == 34) {
            proof {
                assert(spec_scan_attrs(s@, j as int).0 =~= Seq::<
                    (Option<(int, int)>, (int, int), (int, int)),
                >::empty());
                assert(raw_attrs_view(attrs@) + Seq::<
                    (Option<(int, int)>, (int, int), (int, int)),
                >::empty() =~= raw_attrs_view(attrs@));
            }
            break ;
        }
        match find_byte(s, ke + 2, 34) {
            Some(q) => {
                let ghost old_view = raw_attrs_view(attrs@);
                let na = RawAttr { pfx, key: (ks, ke), val: (ke + 2, q) };
                let ghost nav = raw_attr_view(na);
                attrs.push(na);
                proof {
                    assert forall|k: int|
                        0 <= k < attrs@.len() implies #[trigger] raw_attrs_view(attrs@)[k] == (
                    old_view + seq![nav])[k] by {
                        assert(raw_attrs_view(attrs@)[k] == raw_attr_view(attrs@[k]));
                        if k < attrs@.len() - 1 {
                            assert(old_view[k] == raw_attr_view(attrs@[k]));
                        }
                    }
                    assert(raw_attrs_view(attrs@) =~= old_view + seq![nav]);
                    assert(spec_scan_attrs(s@, j as int).0 == seq![nav] + spec_scan_attrs(
                        s@,
                        q as int + 1,
                    ).0);
                    assert((old_view + seq![nav]) + spec_scan_attrs(s@, q as int + 1).0
                        =~= old_view + (seq![nav] + spec_scan_attrs(s@, q as int + 1).0));
                }
                j = q + 1;
            },
            None => {
                proof {
                    assert(spec_scan_attrs(s@, j as int).0 =~= Seq::<
                        (Option<(int, int)>, (int, int), (int, int)),
                    >::empty());
                    assert(raw_attrs_view(attrs@) + Seq::<
                        (Option<(int, int)>, (int, int), (int, int)),
                    >::empty() =~= raw_attrs_view(attrs@));
                }
                break ;
            },
        }
    }
    (attrs, j)
}

/// The fixed element-name table; any other name is a custom component.
pub open spec fn spec_node_type(name: Seq<u8>) -> SpecNodeType {
    if name == "node".spec_bytes() {
        SpecNodeType::Node
    } else if name == "image".spec_bytes() {
        SpecNodeType::Image
    } else if name == "button".spec_bytes() {
        SpecNodeType::Button
    } else if name == "text".spec_bytes() {
        SpecNodeType::Text
    } else if name == "slot".spec_bytes() {
        SpecNodeType::Slot
    } else if name == "template".spec_bytes() {
        SpecNodeType::Template
    } else {
        SpecNodeType::Custom(name)
    }
}

/// Executable counterpart of [`spec_node_type`].
fn node_type_of(s: &[u8], a: usize, b: usize) -> (r: NodeType)
    requires
        a <= b <= s@.len(),
    ensures
        r@ == spec_node_type(s@.subrange(a as int, b as int)),
{
    let name: &[u8] = &s[a..b];
    if slice_eq_bytes(name, "node".as_bytes()) {
        NodeType::Node
    } else if slice_eq_bytes(name, "image".as_bytes()) {
        NodeType::Image
    } else if slice_eq_bytes(name, "button".as_bytes()) {
        NodeType::Button
    } else if slice_eq_bytes(name, "text".as_bytes()) {
        NodeType::Text
    } else if slice_eq_bytes(name, "slot".as_bytes()) {
        NodeType::Slot
    } else if slice_eq_bytes(name, "template".as_bytes()) {
        NodeType::Template
    } else {
        NodeType::Custom(bytes_range_to_vec(s, a, b))
    }
}

/// A freshly scanned element before its children are attached.
pub struct PendingNode {
    pub node_type: NodeType,
    pub styles: Vec<StyleDirective>,
    pub uncompiled: Vec<AttrTokens>,
    pub tags: TemplateProperties,
    pub defs: TemplateProperties,
    pub event_listener: Vec<Action>,
    pub id: Option<Vec<u8>>,
    pub target: Option<Vec<u8>>,
    pub watch: Option<Vec<u8>>,
    pub src: Option<Vec<u8>>,
}

/// The mathematical value of a [`PendingNode`].
pub struct SpecPending {
    pub node_type: SpecNodeType,
    pub styles: Seq<SpecStyleDirective>,
    pub uncompiled: Seq<crate::template::SpecAttrTokens>,
    pub tags: Map<Seq<u8>, Seq<u8>>,
    pub defs: Map<Seq<u8>, Seq<u8>>,
    pub event_listener: Seq<crate::template::SpecAction>,
    pub id: Option<Seq<u8>>,
    pub target: Option<Seq<u8>>,
    pub watch: Option<Seq<u8>>,
    pub src: Option<Seq<u8>>,
}

impl View for PendingNode {
    type V = SpecPending;

    open spec fn view(&self) -> SpecPending {
        SpecPending {
            node_type: self.node_type@,
            styles: self.styles@.map_values(|d: StyleDirective| d@),
            uncompiled: self.uncompiled@.map_values(|t: AttrTokens| t@),
            tags: self.tags.as_map(),
            defs: self.defs.as_map(),
            event_listener: self.event_listener@.map_values(|a: Action| a@),
            id: view_opt_bytes(self.id),
            target: view_opt_bytes(self.target),
            watch: view_opt_bytes(self.watch),
            src: view_opt_bytes(self.src),
        }
    }
}

/// A fresh element of the given kind, before any attribute.
pub open spec fn spec_empty_pending(t: SpecNodeType) -> SpecPending {
    SpecPending {
        node_type: t,
        styles: Seq::empty(),
        uncompiled: Seq::empty(),
        tags: Map::empty(),
        defs: Map::empty(),
        event_listener: Seq::empty(),
        id: Option::None,
        target: Option::None,
        watch: Option::None,
        src: Option::None,
    }
}

/// How one interpreted attribute lands in the element.
pub open spec fn spec_pending_step(
    p: SpecPending,
    attr: crate::template::SpecAttribute,
) -> SpecPending {
    match attr {
        crate::template::SpecAttribute::Style(d) => SpecPending {
            styles: p.styles.push(d),
            ..p
        },
        crate::template::SpecAttribute::PropertyDefinition(k, v) => SpecPending {
            defs: p.defs.insert(k, v),
            ..p
        },
        crate::template::SpecAttribute::Uncompiled(t) => SpecPending {
            uncompiled: p.uncompiled.push(t),
            ..p
        },
        crate::template::SpecAttribute::Action(a) => SpecPending {
            event_listener: p.event_listener.push(a),
            ..p
        },
        crate::template::SpecAttribute::Path(v) => SpecPending { src: Option::Some(v), ..p },
        crate::template::SpecAttribute::Target(v) => SpecPending {
            target: Option::Some(v),
            ..p
        },
        crate::template::SpecAttribute::Id(v) => SpecPending { id: Option::Some(v), ..p },
        crate::template::SpecAttribute::Tag(k, v) => SpecPending {
            tags: p.tags.insert(k, v),
            ..p
        },
        crate::template::SpecAttribute::Watch(v) => SpecPending {
            watch: Option::Some(v),
            ..p
        },
    }
}

/// The element after interpreting its raw attributes in order, or
/// nothing when one of them is a hard error.
pub open spec fn spec_apply_attrs(
    s: Seq<u8>,
    attrs: Seq<(Option<(int, int)>, (int, int), (int, int))>,
    k: int,
    p: SpecPending,
    is_custom: bool,
) -> Option<SpecPending>
    decreases attrs.len() - k when 0 <= k <= attrs.len()
{
    if k >= attrs.len() {
        Option::Some(p)
    } else {
        let (pfx, key, val) = attrs[k];
        let pfxv = match pfx {
            Option::Some((a, b)) => Option::Some(s.subrange(a, b)),
            Option::None => Option::None,
        };
        match spec_attribute_from_parts(
            pfxv,
            s.subrange(key.0, key.1),
            s.subrange(val.0, val.1),
            is_custom,
        ) {
            SpecAttrOutcome::Accepted(attr) => spec_apply_attrs(
                s,
                attrs,
                k + 1,
                spec_pending_step(p, attr),
                is_custom,
            ),
            SpecAttrOutcome::Rejected(_) => Option::None,
        }
    }
}

/// Interprets the raw attributes of one element; the result is exactly
/// [`spec_apply_attrs`] from the fresh element.
fn apply_attrs(
    s: &[u8],
    attrs: &Vec<RawAttr>,
    node_type: NodeType,
    err_pos: usize,
) -> (r: Result<PendingNode, ParseError>)
    requires
        forall|m: int|
            0 <= m < attrs@.len() ==> raw_attr_ranges_wf(
                #[trigger] raw_attrs_view(attrs@)[m],
                s@.len() as int,
            ),
    ensures
        match r {
            Ok(p) => {
                &&& p.tags.wf()
                &&& p.defs.wf()
                &&& spec_apply_attrs(
                    s@,
                    raw_attrs_view(attrs@),
                    0,
                    spec_empty_pending(node_type@),
                    node_type@ is Custom,
                ) == Option::Some(p@)
            },
            Err(_) => spec_apply_attrs(
                s@,
                raw_attrs_view(attrs@),
                0,
                spec_empty_pending(node_type@),
                node_type@ is Custom,
            ) is None,
        },
{
    let is_custom = match &node_type {
        NodeType::Custom(_) => true,
        _ => false,
    };
    let ghost ntv = node_type@;
    let ghost full = raw_attrs_view(attrs@);
    let mut p = PendingNode {
        node_type,
        styles: Vec::new(),
        uncompiled: Vec::new(),
        tags: TemplateProperties::new(),
        defs: TemplateProperties::new(),
        event_listener: Vec::new(),
        id: None,
        target: None,
        watch: None,
        src: None,
    };
    proof {
        assert(p@.styles =~= Seq::<SpecStyleDirective>::empty());
        assert(p@.uncompiled =~= Seq::<crate::template::SpecAttrTokens>::empty());
        assert(p@.event_listener =~= Seq::<crate::template::SpecAction>::empty());
        assert(p@.tags =~= Map::<Seq<u8>, Seq<u8>>::empty());
        assert(p@.defs =~= Map::<Seq<u8>, Seq<u8>>::empty());
        assert(p@ == spec_empty_pending(ntv));
    }
    let mut k: usize = 0;
    while k < attrs.len()
        invariant
            k <= attrs@.len(),
            p.tags.wf(),
            p.defs.wf(),
            p.node_type@ == ntv,
            ntv == node_type@,
            full == raw_attrs_view(attrs@),
            is_custom == (ntv is Custom),
            forall|m: int|
                0 <= m < attrs@.len() ==> raw_attr_ranges_wf(
                    #[trigger] raw_attrs_view(attrs@)[m],
                    s@.len() as int,
                ),
            spec_apply_attrs(s@, full, 0, spec_empty_pending(ntv), ntv is Custom)
                == spec_apply_attrs(s@, full, k as int, p@, ntv is Custom),
        decreases attrs@.len() - k,
    {
        proof {
            assert(raw_attrs_view(attrs@)[k as int] == raw_attr_view(attrs@[k as int]));
        }
        let pfx_slice: Option<&[u8]> = match attrs[k].pfx {
            Some((a, b)) => Some(&s[a..b]),
            None => None,
        };
        let (ka, kb) = attrs[k].key;
        let (va, vb) = attrs[k].val;
        let outcome = attribute_from_parts(pfx_slice, &s[ka..kb], &s[va..vb], is_custom);
        match outcome {
            AttrOutcome::Accepted(attr) => {
                proof {
                    assert(spec_apply_attrs(s@, full, k as int, p@, ntv is Custom)
                        == spec_apply_attrs(
                        s@,
                        full,
                        k as int + 1,
                        spec_pending_step(p@, attr@),
                        ntv is Custom,
                    ));
                }
                let ghost pre = p@;
                match attr {
                    Attribute::Style(d) => {
                        p.styles.push(d);
                        proof {
                            assert(p@.styles =~= pre.styles.push(attrs_last_style(p.styles@)));
                            assert(p@ == spec_pending_step(pre, attr@));
                        }
                    },
                    Attribute::PropertyDefinition(key, val) => {
                        p.defs.set(key, val);
                        proof {
                            assert(p@ == spec_pending_step(pre, attr@));
                        }
                    },
                    Attribute::Uncompiled(t) => {
                        p.uncompiled.push(t);
                        proof {
                            assert(p@.uncompiled =~= pre.uncompiled.push(
                                tokens_last(p.uncompiled@),
                            ));
                            assert(p@ == spec_pending_step(pre, attr@));
                        }
                    },
                    Attribute::Action(a) => {
                        p.event_listener.push(a);
                        proof {
                            assert(p@.event_listener =~= pre.event_listener.push(
                                actions_last(p.event_listener@),
                            ));
                            assert(p@ == spec_pending_step(pre, attr@));
                        }
                    },
                    Attribute::Path(v) => {
                        p.src = Some(v);
                        proof {
                            assert(p@ == spec_pending_step(pre, attr@));
                        }
                    },
                    Attribute::Target(v) => {
                        p.target = Some(v);
                        proof {
                            assert(p@ == spec_pending_step(pre, attr@));
                        }
                    },
                    Attribute::Id(v) => {
                        p.id = Some(v);
                        proof {
                            assert(p@ == spec_pending_step(pre, attr@));
                        }
                    },
                    Attribute::Tag(key, val) => {
                        p.tags.set(key, val);
                        proof {
                            assert(p@ == spec_pending_step(pre, attr@));
                        }
                    },
                    Attribute::Watch(v) => {
                        p.watch = Some(v);
                        proof {
                            assert(p@ == spec_pending_step(pre, attr@));
                        }
                    },
                }
            },
            AttrOutcome::Rejected(kind) => {
                return Err(ParseError { pos: err_pos, kind });
            },
        }
        k = k + 1;
    }
    Ok(p)
}

/// The mathematical state a parse threads along: the node arena and
/// content table built so far, and the template's property map and name.
pub struct SpecParseState {
    pub nodes: Seq<SpecXNode>,
    pub content: Seq<Seq<u8>>,
    pub props: Map<Seq<u8>, Seq<u8>>,
    pub name: Option<Seq<u8>>,
}

/// The sequence of mathematical node values behind a node arena.
pub open spec fn nodes_view(s: Seq<XNode>) -> Seq<SpecXNode> {
    s.map_values(|n: XNode| n@)
}

/// The sequence of byte strings behind a content table.
pub open spec fn content_view(s: Seq<Vec<u8>>) -> Seq<Seq<u8>> {
    s.map_values(|c: Vec<u8>| c@)
}

/// The mathematical state behind the parser's working pieces.
pub open spec fn st_view(
    nodes: Seq<XNode>,
    content: Seq<Vec<u8>>,
    props: TemplateProperties,
    name: Option<Vec<u8>>,
) -> SpecParseState {
    SpecParseState {
        nodes: nodes_view(nodes),
        content: content_view(content),
        props: props.as_map(),
        name: view_opt_bytes(name),
    }
}

/// The node a finished element becomes: the element's attributes, its
/// text stored at the next content index, and its children.
pub open spec fn spec_made_node(
    p: SpecPending,
    text: Option<Seq<u8>>,
    kids: Seq<int>,
    clen: int,
) -> SpecXNode {
    SpecXNode {
        node_type: p.node_type,
        styles: p.styles,
        uncompiled: p.uncompiled,
        tags: p.tags,
        defs: p.defs,
        event_listener: p.event_listener,
        id: p.id,
        target: p.target,
        watch: p.watch,
        src: p.src,
        content_index: match text {
            Option::Some(_) => Option::Some(clen),
            Option::None => Option::None,
        },
        children: kids,
    }
}

/// Appending a finished node to the state: its text joins the content
/// table, the node joins the arena, and its index is reported.
pub open spec fn spec_push_node(
    st: SpecParseState,
    p: SpecPending,
    text: Option<Seq<u8>>,
    kids: Seq<int>,
) -> (SpecParseState, int) {
    let node = spec_made_node(p, text, kids, st.content.len() as int);
    let content2 = match text {
        Option::Some(t) => st.content.push(t),
        Option::None => st.content,
    };
    (SpecParseState { nodes: st.nodes.push(node), content: content2, ..st }, st.nodes.len() as int)
}

/// The value range of the last `name` attribute of a reserved
/// `<property>` element, if one was written.
pub open spec fn spec_prop_key(
    s: Seq<u8>,
    attrs: Seq<(Option<(int, int)>, (int, int), (int, int))>,
    k: int,
    acc: Option<(int, int)>,
) -> Option<(int, int)>
    decreases attrs.len() - k when 0 <= k <= attrs.len()
{
    if k >= attrs.len() {
        acc
    } else {
        let acc2 = if s.subrange(attrs[k].1.0, attrs[k].1.1) == "name".spec_bytes() {
            Option::Some(attrs[k].2)
        } else {
            acc
        };
        spec_prop_key(s, attrs, k + 1, acc2)
    }
}

/// Whether an element's closing prefix matches its opening prefix: both
/// absent, or the same bytes.
pub open spec fn spec_prefix_eq(
    s: Seq<u8>,
    a: Option<(int, int)>,
    b: Option<(int, int)>,
) -> bool {
    match (a, b) {
        (Option::None, Option::None) => true,
        (Option::Some((p, q)), Option::Some((r2, t))) => s.subrange(p, q) == s.subrange(r2, t),
        _ => false,
    }
}

/// The integer view of an optional arena index.
pub open spec fn opt_idx_view(o: Option<usize>) -> Option<int> {
    match o {
        Option::Some(k) => Option::Some(k as int),
        Option::None => Option::None,
    }
}

/// One element of the document grammar, read at `pos`: a start tag with
/// an optional prefix, a snake-case name and an attribute list, then
/// either `/>`, or `>` followed by child elements, optional text, and a
/// matching closing tag. A reserved `property` element writes a default
/// into the template's property map and a reserved `name` element sets
/// the template's name; both yield no node. Every other element joins
/// the arena after its children, with its attributes interpreted by the
/// attribute grammar. The fuel bounds the recursion and never runs out
/// for the fuel [`spec_parse_template`] supplies.
pub open spec fn spec_parse_node(
    s: Seq<u8>,
    pos: int,
    st: SpecParseState,
    fuel: nat,
) -> Option<(Option<int>, int, SpecParseState)>
    decreases fuel,
{
    if fuel == 0 {
        Option::None
    } else if !(0 <= pos < s.len()) {
        Option::None
    } else if s[pos] != 60 || spec_two_at(s, pos, 60, 47) {
        Option::None
    } else {
        let i = spec_skip_ws(s, pos + 1);
        let pe = spec_snake_end(s, i);
        let (spfx, ns): (Option<(int, int)>, int) = if pe < s.len() && s[pe] == 58 {
            (Option::Some((i, pe)), pe + 1)
        } else {
            (Option::None, i)
        };
        let ne = spec_snake_end(s, ns);
        let scanned = spec_scan_attrs(s, ne);
        let attrs = scanned.0;
        let aw = spec_skip_ws(s, scanned.1);
        let name = s.subrange(ns, ne);
        let is_prop = name == "property".spec_bytes();
        let is_name = name == "name".spec_bytes();
        let nt = spec_node_type(name);
        if spec_two_at(s, aw, 47, 62) {
            let end = aw + 2;
            if end <= pos {
                Option::None
            } else if is_prop || is_name {
                Option::Some((Option::None, end, st))
            } else {
                match spec_apply_attrs(s, attrs, 0, spec_empty_pending(nt), nt is Custom) {
                    Option::Some(p) => {
                        let pushed = spec_push_node(st, p, Option::None, Seq::empty());
                        Option::Some((Option::Some(pushed.1), end, pushed.0))
                    },
                    Option::None => Option::None,
                }
            }
        } else if !(aw < s.len() && s[aw] == 62) {
            Option::None
        } else {
            match spec_parse_children(s, aw + 1, st, (fuel - 1) as nat) {
                Option::Some((kids, i2, st1)) => {
                    match spec_find(s, i2, seq![60u8]) {
                        Option::Some(v) => {
                            let lt = spec_ltrim_at(s, i2, v);
                            let rt = spec_rtrim_at(s, lt, v);
                            if !spec_two_at(s, v, 60, 47) {
                                Option::None
                            } else {
                                let e = v + 2;
                                let epe = spec_snake_end(s, e);
                                let (epfx, ens): (Option<(int, int)>, int) = if epe < s.len()
                                    && s[epe] == 58 {
                                    (Option::Some((e, epe)), epe + 1)
                                } else {
                                    (Option::None, e)
                                };
                                let ene = spec_snake_end(s, ens);
                                if !(ene < s.len() && s[ene] == 62) {
                                    Option::None
                                } else if !(name == s.subrange(ens, ene) && spec_prefix_eq(
                                    s,
                                    spfx,
                                    epfx,
                                )) {
                                    Option::None
                                } else {
                                    let end = ene + 1;
                                    if end <= pos {
                                        Option::None
                                    } else if is_prop {
                                        let st2 = if lt < rt {
                                            match spec_prop_key(s, attrs, 0, Option::None) {
                                                Option::Some((ka, kb)) => SpecParseState {
                                                    props: st1.props.insert(
                                                        s.subrange(ka, kb),
                                                        s.subrange(lt, rt),
                                                    ),
                                                    ..st1
                                                },
                                                Option::None => st1,
                                            }
                                        } else {
                                            st1
                                        };
                                        Option::Some((Option::None, end, st2))
                                    } else if is_name {
                                        let st2 = if lt < rt {
                                            SpecParseState {
                                                name: Option::Some(s.subrange(lt, rt)),
                                                ..st1
                                            }
                                        } else {
                                            st1
                                        };
                                        Option::Some((Option::None, end, st2))
                                    } else {
                                        match spec_apply_attrs(
                                            s,
                                            attrs,
                                            0,
                                            spec_empty_pending(nt),
                                            nt is Custom,
                                        ) {
                                            Option::Some(p) => {
                                                let text = if lt < rt {
                                                    Option::Some(s.subrange(lt, rt))
                                                } else {
                                                    Option::None
                                                };
                                                let pushed = spec_push_node(st1, p, text, kids);
                                                Option::Some(
                                                    (Option::Some(pushed.1), end, pushed.0),
                                                )
                                            },
                                            Option::None => Option::None,
                                        }
                                    }
                                }
                            }
                        },
                        Option::None => Option::None,
                    }
                },
                Option::None => Option::None,
            }
        }
    }
}

/// The child elements of an open element, read from `i` on: trivia, then
/// either the closing `</` (or text, which also ends the children), or
/// one more child element.
pub open spec fn spec_parse_children(
    s: Seq<u8>,
    i: int,
    st: SpecParseState,
    fuel: nat,
) -> Option<(Seq<int>, int, SpecParseState)>
    decreases fuel,
{
    if fuel == 0 {
        Option::None
    } else if !(0 <= i <= s.len()) {
        Option::None
    } else {
        let t = spec_skip_trivia(s, i);
        if spec_two_at(s, t, 60, 47) {
            Option::Some((Seq::empty(), t, st))
        } else if t < s.len() && s[t] == 60 {
            match spec_parse_node(s, t, st, (fuel - 1) as nat) {
                Option::Some((cidx, j, st1)) => {
                    match spec_parse_children(s, j, st1, (fuel - 1) as nat) {
                        Option::Some((kids, i2, st2)) => {
                            let own = match cidx {
                                Option::Some(c) => seq![c],
                                Option::None => Seq::empty(),
                            };
                            Option::Some((own + kids, i2, st2))
                        },
                        Option::None => Option::None,
                    }
                },
                Option::None => Option::None,
            }
        } else {
            Option::Some((Seq::empty(), t, st))
        }
    }
}

/// The last style of a directive list, as its mathematical value.
pub open spec fn attrs_last_style(s: Seq<StyleDirective>) -> SpecStyleDirective {
    s.last()@
}

/// The last token of an expression list, as its mathematical value.
pub open spec fn tokens_last(s: Seq<AttrTokens>) -> crate::template::SpecAttrTokens {
    s.last()@
}

/// The last listener of a listener list, as its mathematical value.
pub open spec fn actions_last(s: Seq<Action>) -> crate::template::SpecAction {
    s.last()@
}

/// Appends a finished node to the arena, storing its text in the content
/// table; the change is exactly [`spec_push_node`].
fn push_node(
    nodes: &mut Vec<XNode>,
    content: &mut Vec<Vec<u8>>,
    p: PendingNode,
    text: Option<Vec<u8>>,
    kids: Vec<usize>,
) -> (idx: usize)
    requires
        wf_arena(old(nodes)@, old(content)@.len() as int),
        p.tags.wf(),
        p.defs.wf(),
        forall|k: int| 0 <= k < kids@.len() ==> (#[trigger] kids@[k] as int) < old(nodes)@.len(),
    ensures
        final(nodes)@.len() == old(nodes)@.len() + 1,
        final(content)@.len() >= old(content)@.len(),
        wf_arena(final(nodes)@, final(content)@.len() as int),
        (idx as int) == old(nodes)@.len(),
        nodes_view(final(nodes)@) == nodes_view(old(nodes)@).push(
            spec_made_node(
                p@,
                view_opt_bytes(text),
                kids@.map_values(|c: usize| c as int),
                old(content)@.len() as int,
            ),
        ),
        content_view(final(content)@) == (match view_opt_bytes(text) {
            Option::Some(t) => content_view(old(content)@).push(t),
            Option::None => content_view(old(content)@),
        }),
{
    let ghost pv = p@;
    let ghost tv = view_opt_bytes(text);
    let ghost kv = kids@.map_values(|c: usize| c as int);
    let ghost old_nodes_v = nodes_view(nodes@);
    let ghost old_content_v = content_view(content@);
    let content_index: Option<usize> = match text {
        Some(t) => {
            let ci = content.len();
            content.push(t);
            proof {
                assert forall|m: int|
                    0 <= m < content@.len() implies #[trigger] content_view(content@)[m]
                    == old_content_v.push(tv.unwrap())[m] by {
                    assert(content_view(content@)[m] == content@[m]@);
                    if m < content@.len() - 1 {
                        assert(old_content_v[m] == old(content)@[m]@);
                    }
                }
                assert(content_view(content@) =~= old_content_v.push(tv.unwrap()));
            }
            Some(ci)
        },
        None => None,
    };
    let idx = nodes.len();
    let node = XNode {
        node_type: p.node_type,
        styles: p.styles,
        uncompiled: p.uncompiled,
        tags: p.tags,
        defs: p.defs,
        event_listener: p.event_listener,
        id: p.id,
        target: p.target,
        watch: p.watch,
        src: p.src,
        content_index,
        children: kids,
    };
    proof {
        assert(node@ == spec_made_node(pv, tv, kv, old(content)@.len() as int));
        assert(wf_arena_node(node, nodes@.len() as int, content@.len() as int));
    }
    nodes.push(node);
    proof {
        assert forall|i: int|
            0 <= i < nodes@.len() implies wf_arena_node(
            #[trigger] nodes@[i],
            i,
            content@.len() as int,
        ) by {
            if i < nodes@.len() - 1 {
                assert(nodes@[i] == old(nodes)@[i]);
                assert(wf_arena_node(old(nodes)@[i], i, old(content)@.len() as int));
            }
        }
        assert forall|m: int|
            0 <= m < nodes@.len() implies #[trigger] nodes_view(nodes@)[m] == old_nodes_v.push(
            node@,
        )[m] by {
            assert(nodes_view(nodes@)[m] == nodes@[m]@);
            if m < nodes@.len() - 1 {
                assert(old_nodes_v[m] == old(nodes)@[m]@);
            }
        }
        assert(nodes_view(nodes@) =~= old_nodes_v.push(node@));
    }
    idx
}

/// Parses one element starting at `pos`; the outcome and every change to
/// the arena, content table, property map and template name are exactly
/// [`spec_parse_node`].
#[verifier::rlimit(100)]
#[verifier::spinoff_prover]
fn parse_node(
    s: &[u8],
    pos: usize,
    nodes: &mut Vec<XNode>,
    content: &mut Vec<Vec<u8>>,
    props: &mut TemplateProperties,
    tname: &mut Option<Vec<u8>>,
    Ghost(fuel): Ghost<nat>,
) -> (r: Result<(Option<usize>, usize), ParseError>)
    requires
        pos <= s@.len(),
        wf_arena(old(nodes)@, old(content)@.len() as int),
        old(props).wf(),
        fuel >= 2 * (s@.len() - pos) + 1,
    ensures
        final(props).wf(),
        final(content)@.len() >= old(content)@.len(),
        final(nodes)@.len() >= old(nodes)@.len(),
        wf_arena(final(nodes)@, final(content)@.len() as int),
        match r {
            Ok((idx, j)) => {
                &&& pos < j <= s@.len()
                &&& match idx {
                    Option::Some(k) => (k as int) < final(nodes)@.len(),
                    Option::None => true,
                }
                &&& spec_parse_node(
                    s@,
                    pos as int,
                    st_view(old(nodes)@, old(content)@, *old(props), *old(tname)),
                    fuel,
                ) == Option::Some(
                    (
                        opt_idx_view(idx),
                        j as int,
                        st_view(final(nodes)@, final(content)@, *final(props), *final(tname)),
                    ),
                )
            },
            Err(_) => spec_parse_node(
                s@,
                pos as int,
                st_view(old(nodes)@, old(content)@, *old(props), *old(tname)),
                fuel,
            ) is None,
        },
    decreases s@.len() - pos,
{
    let ghost st0 = st_view(old(nodes)@, old(content)@, *old(props), *old(tname));
    if pos >= s.len() {
        return Err(ParseError { pos, kind: ParseErrorKind::Incomplete });
    }
    if s[pos] != 60 || two_bytes_at(s, pos, 60, 47) {
        return Err(ParseError { pos, kind: ParseErrorKind::Malformed });
    }
    let i = skip_ws(s, pos + 1);
    let pe = snake_end(s, i);
    let (start_pfx, name_start): (Option<(usize, usize)>, usize) = if pe < s.len() && s[pe] == 58 {
        (Some((i, pe)), pe + 1)
    } else {
        (None, i)
    };
    let name_end = snake_end(s, name_start);
    let (attrs, after_attrs) = scan_attrs(s, name_end);
    let aw = skip_ws(s, after_attrs);
    let is_property = slice_eq_bytes(&s[name_start..name_end], "property".as_bytes());
    let is_name_decl = slice_eq_bytes(&s[name_start..name_end], "name".as_bytes());
    let node_type = node_type_of(s, name_start, name_end);
    let ghost ntv = node_type@;
    if two_bytes_at(s, aw, 47, 62) {
        let end = aw + 2;
        if end <= pos {
            return Err(ParseError { pos, kind: ParseErrorKind::Malformed });
        }
        if is_property || is_name_decl {
            return Ok((None, end));
        }
        let p = match apply_attrs(s, &attrs, node_type, pos) {
            Ok(p) => p,
            Err(e) => {
                return Err(e);
            },
        };
        let kids0: Vec<usize> = Vec::new();
        proof {
            assert(kids0@.map_values(|c: usize| c as int) =~= Seq::<int>::empty());
        }
        let idx = push_node(nodes, content, p, None, kids0);
        return Ok((Some(idx), end));
    }
    if !(aw < s.len() && s[aw] == 62) {
        return Err(
            ParseError {
                pos: aw,
                kind: if aw >= s.len() {
                    ParseErrorKind::Incomplete
                } else {
                    ParseErrorKind::Malformed
                },
            },
        );
    }
    // children come first; text, if any, follows the last child
    let mut kids: Vec<usize> = Vec::new();
    let mut i2: usize = aw + 1;
    let ghost cf: nat = (fuel - 1) as nat;
    let ghost mut f_now: nat = cf;
    proof {
        assert(kids@.map_values(|c: usize| c as int) =~= Seq::<int>::empty());
    }
    let mut child_err: Option<ParseError> = None;
    loop
        invariant_except_break
            child_err is None,
            f_now >= 2 * (s@.len() - i2) + 2,
            match spec_parse_children(
                s@,
                i2 as int,
                st_view(nodes@, content@, *props, *tname),
                f_now,
            ) {
                Option::Some((kr, jr, str2)) => spec_parse_children(s@, aw as int + 1, st_view(
                    old(nodes)@,
                    old(content)@,
                    *old(props),
                    *old(tname),
                ), cf) == Option::Some(
                    (kids@.map_values(|c: usize| c as int) + kr, jr, str2),
                ),
                Option::None => spec_parse_children(s@, aw as int + 1, st_view(
                    old(nodes)@,
                    old(content)@,
                    *old(props),
                    *old(tname),
                ), cf) is None,
            },
        invariant
            pos < i2 <= s@.len(),
            s@.len() <= usize::MAX,
            wf_arena(nodes@, content@.len() as int),
            props.wf(),
            content@.len() >= old(content)@.len(),
            nodes@.len() >= old(nodes)@.len(),
            old(props).wf(),
            forall|k: int| 0 <= k < kids@.len() ==> (#[trigger] kids@[k] as int) < nodes@.len(),
        ensures
            pos < i2 <= s@.len(),
            wf_arena(nodes@, content@.len() as int),
            props.wf(),
            content@.len() >= old(content)@.len(),
            nodes@.len() >= old(nodes)@.len(),
            forall|k: int| 0 <= k < kids@.len() ==> (#[trigger] kids@[k] as int) < nodes@.len(),
            match child_err {
                Option::Some(_) => spec_parse_children(s@, aw as int + 1, st_view(
                    old(nodes)@,
                    old(content)@,
                    *old(props),
                    *old(tname),
                ), cf) is None,
                Option::None => spec_parse_children(s@, aw as int + 1, st_view(
                    old(nodes)@,
                    old(content)@,
                    *old(props),
                    *old(tname),
                ), cf) == Option::Some(
                    (
                        kids@.map_values(|c: usize| c as int),
                        i2 as int,
                        st_view(nodes@, content@, *props, *tname),
                    ),
                ),
            },
        decreases s@.len() - i2,
    {
        let t = skip_trivia(s, i2);
        if two_bytes_at(s, t, 60, 47) {
            proof {
                assert(spec_parse_children(
                    s@,
                    i2 as int,
                    st_view(nodes@, content@, *props, *tname),
                    f_now,
                ) == Option::Some(
                    (
                        Seq::<int>::empty(),
                        t as int,
                        st_view(nodes@, content@, *props, *tname),
                    ),
                ));
                assert(kids@.map_values(|c: usize| c as int) + Seq::<int>::empty()
                    =~= kids@.map_values(|c: usize| c as int));
            }
            i2 = t;
            break ;
        }
        if t < s.len() && s[t] == 60 {
            let ghost st_pre = st_view(nodes@, content@, *props, *tname);
            let ghost i2_old: int = i2 as int;
            let ghost f_old: nat = f_now;
            match parse_node(s, t, nodes, content, props, tname, Ghost((f_now - 1) as nat)) {
                Ok((cidx, j)) => {
                    let ghost old_kids = kids@.map_values(|c: usize| c as int);
                    match cidx {
                        Some(c) => {
                            kids.push(c);
                            proof {
                                assert(kids@.map_values(|c2: usize| c2 as int) =~= old_kids
                                    + seq![c as int]);
                            }
                        },
                        None => {},
                    }
                    proof {
                        let own: Seq<int> = match cidx {
                            Option::Some(c) => seq![c as int],
                            Option::None => Seq::<int>::empty(),
                        };
                        assert(kids@.map_values(|c2: usize| c2 as int) =~= old_kids + own);
                        let st_post = st_view(nodes@, content@, *props, *tname);
                        assert(spec_parse_node(s@, t as int, st_pre, (f_old - 1) as nat)
                            == Option::Some((opt_idx_view(cidx), j as int, st_post)));
                        assert(spec_parse_children(s@, i2_old, st_pre, f_old) == (
                        match spec_parse_children(s@, j as int, st_post, (f_old - 1) as nat) {
                            Option::Some((kr, jr, str2)) => Option::Some((own + kr, jr, str2)),
                            Option::None => Option::None::<(Seq<int>, int, SpecParseState)>,
                        }));
                        match spec_parse_children(s@, j as int, st_post, (f_old - 1) as nat) {
                            Option::Some((kr, jr, str2)) => {
                                assert((old_kids + own) + kr =~= old_kids + (own + kr));
                            },
                            Option::None => {},
                        }
                    }
                    i2 = j;
                    proof {
                        f_now = (f_now - 1) as nat;
                    }
                },
                Err(e) => {
                    proof {
                        assert(spec_parse_node(s@, t as int, st_pre, (f_old - 1) as nat)
                            is None);
                        assert(spec_parse_children(s@, i2_old, st_pre, f_old) is None);
                    }
                    child_err = Some(e);
                    break ;
                },
            }
        } else {
            proof {
                assert(spec_parse_children(
                    s@,
                    i2 as int,
                    st_view(nodes@, content@, *props, *tname),
                    f_now,
                ) == Option::Some(
                    (
                        Seq::<int>::empty(),
                        t as int,
                        st_view(nodes@, content@, *props, *tname),
                    ),
                ));
                assert(kids@.map_values(|c: usize| c as int) + Seq::<int>::empty()
                    =~= kids@.map_values(|c: usize| c as int));
            }
            i2 = t;
            break ;
        }
    }
    match child_err {
        Some(e) => {
            return Err(e);
        },
        None => {},
    }
    // text value up to the closing tag
    let v = match find_byte(s, i2, 60) {
        Some(v) => v,
        None => {
            return Err(ParseError { pos: i2, kind: ParseErrorKind::Incomplete });
        },
    };
    let lt = ltrim_at(s, i2, v);
    let rt = rtrim_at(s, lt, v);
    // closing tag: `</`, the same prefix and name, `>`
    if !two_bytes_at(s, v, 60, 47) {
        return Err(ParseError { pos: v, kind: ParseErrorKind::Malformed });
    }
    let e = v + 2;
    let epe = snake_end(s, e);
    let (end_pfx, end_name_start): (Option<(usize, usize)>, usize) = if epe < s.len() && s[epe]
        == 58 {
        (Some((e, epe)), epe + 1)
    } else {
        (None, e)
    };
    let end_name_end = snake_end(s, end_name_start);
    if !(end_name_end < s.len() && s[end_name_end] == 62) {
        return Err(ParseError { pos: end_name_end, kind: ParseErrorKind::Incomplete });
    }
    let names_match = slice_eq_bytes(&s[name_start..name_end], &s[end_name_start..end_name_end]);
    let prefixes_match = match (start_pfx, end_pfx) {
        (None, None) => true,
        (Some((a, b)), Some((c, d))) => slice_eq_bytes(&s[a..b], &s[c..d]),
        _ => false,
    };
    if !(names_match && prefixes_match) {
        return Err(ParseError { pos: v, kind: ParseErrorKind::UnclosedTag });
    }
    let end = end_name_end + 1;
    if end <= pos {
        return Err(ParseError { pos, kind: ParseErrorKind::Malformed });
    }
    if is_property {
        // <property name="key">value</property>
        let mut key: Option<(usize, usize)> = None;
        let mut k: usize = 0;
        while k < attrs.len()
            invariant
                k <= attrs@.len(),
                forall|m: int|
                    0 <= m < attrs@.len() ==> raw_attr_ranges_wf(
                        #[trigger] raw_attrs_view(attrs@)[m],
                        s@.len() as int,
                    ),
                match key {
                    Option::Some((a, b)) => a <= b <= s@.len(),
                    Option::None => true,
                },
                spec_prop_key(s@, raw_attrs_view(attrs@), 0, Option::None) == spec_prop_key(
                    s@,
                    raw_attrs_view(attrs@),
                    k as int,
                    match key {
                        Option::Some((a, b)) => Option::Some((a as int, b as int)),
                        Option::None => Option::None,
                    },
                ),
            decreases attrs@.len() - k,
        {
            proof {
                assert(raw_attrs_view(attrs@)[k as int] == raw_attr_view(attrs@[k as int]));
            }
            let (ka, kb) = attrs[k].key;
            if slice_eq_bytes(&s[ka..kb], "name".as_bytes()) {
                key = Some(attrs[k].val);
            }
            k = k + 1;
        }
        if lt < rt {
            match key {
                Some((va, vb)) => {
                    props.set(bytes_range_to_vec(s, va, vb), bytes_range_to_vec(s, lt, rt));
                },
                None => {},
            }
        }
        return Ok((None, end));
    }
    if is_name_decl {
        if lt < rt {
            *tname = Some(bytes_range_to_vec(s, lt, rt));
        }
        return Ok((None, end));
    }
    let p = match apply_attrs(s, &attrs, node_type, pos) {
        Ok(p) => p,
        Err(e) => {
            return Err(e);
        },
    };
    let text: Option<Vec<u8>> = if lt < rt {
        Some(bytes_range_to_vec(s, lt, rt))
    } else {
        None
    };
    let idx = push_node(nodes, content, p, text, kids);
    Ok((Some(idx), end))
}

/// The whole document grammar: leading trivia, an optional `<? … ?>`
/// header, then one element tree. A `<template>` wrapper's element
/// children become the template roots; any other single element is
/// itself the one root.
pub open spec fn spec_parse_template(s: Seq<u8>) -> Option<SpecTemplate> {
    let i0 = spec_skip_trivia(s, 0);
    if spec_two_at(s, i0, 60, 63) {
        match spec_find(s, i0 + 2, seq![63u8, 62u8]) {
            Option::Some(c) => spec_parse_document_at(s, spec_skip_trivia(s, c + 2)),
            Option::None => Option::None,
        }
    } else {
        spec_parse_document_at(s, i0)
    }
}

/// The element tree at `i`, finished into a template.
pub open spec fn spec_parse_document_at(s: Seq<u8>, i: int) -> Option<SpecTemplate> {
    let st0 = SpecParseState {
        nodes: Seq::empty(),
        content: Seq::empty(),
        props: Map::empty(),
        name: Option::None,
    };
    match spec_parse_node(s, i, st0, (2 * (s.len() - i) + 1) as nat) {
        Option::Some((idx, _, st)) => Option::Some(spec_finish_template(st, idx)),
        Option::None => Option::None,
    }
}

/// The template a finished parse stands for: a `<template>` wrapper's
/// children are the roots, any other parsed element is the single root,
/// and a document of only reserved elements has none.
pub open spec fn spec_finish_template(st: SpecParseState, idx: Option<int>) -> SpecTemplate {
    let root: Seq<int> = match idx {
        Option::Some(k) => {
            if 0 <= k < st.nodes.len() && st.nodes[k].node_type is Template {
                st.nodes[k].children
            } else {
                seq![k]
            }
        },
        Option::None => Seq::empty(),
    };
    SpecTemplate {
        name: st.name,
        properties: st.props,
        root,
        nodes: st.nodes,
        content: st.content,
    }
}

/// Parses a whole document. The document is accepted if and only if
/// [`spec_parse_template`] accepts it, and the returned template is
/// exactly the mirror's, well-formed on top: reserved `property` and
/// `name` elements at any depth fill the template's defaults and name,
/// a `<template>` wrapper's element children become the roots, and any
/// other single element is itself the one root.
pub fn parse_template(input: &[u8]) -> (r: Result<HtmlTemplate, ParseError>)
    ensures
        match r {
            Ok(t) => crate::template::wf_template(t) && spec_parse_template(input@)
                == Option::Some(t@),
            Err(_) => spec_parse_template(input@) is None,
        },
{
    let mut i = skip_trivia(input, 0);
    proof {
        assert(input@.len() <= usize::MAX) by {
            let n = input.len();
        }
    }
    if two_bytes_at(input, i, 60, 63) {
        match find_two(input, i + 2, 63, 62) {
            Some(c) => {
                i = skip_trivia(input, c + 2);
            },
            None => {
                return Err(ParseError { pos: i, kind: ParseErrorKind::Incomplete });
            },
        }
    }
    let mut nodes: Vec<XNode> = Vec::new();
    let mut content: Vec<Vec<u8>> = Vec::new();
    let mut props = TemplateProperties::new();
    let mut tname: Option<Vec<u8>> = None;
    let ghost f0: nat = (2 * (input@.len() - i as int) + 1) as nat;
    proof {
        assert(st_view(nodes@, content@, props, tname) == SpecParseState {
            nodes: Seq::empty(),
            content: Seq::empty(),
            props: Map::empty(),
            name: Option::None,
        }) by {
            assert(nodes_view(nodes@) =~= Seq::<SpecXNode>::empty());
            assert(content_view(content@) =~= Seq::<Seq<u8>>::empty());
        }
    }
    let (root_idx, _end) = match parse_node(input, i, &mut nodes, &mut content, &mut props,
    &mut tname, Ghost(f0)) {
        Ok(p) => p,
        Err(e) => {
            return Err(e);
        },
    };
    let mut root: Vec<usize> = Vec::new();
    match root_idx {
        Some(idx) => {
            let is_wrapper = match &nodes[idx].node_type {
                NodeType::Template => true,
                _ => false,
            };
            proof {
                assert(nodes_view(nodes@)[idx as int] == nodes@[idx as int]@);
            }
            if is_wrapper {
                let n = nodes[idx].children.len();
                let mut k: usize = 0;
                while k < n
                    invariant
                        (idx as int) < nodes@.len(),
                        n == nodes@[idx as int].children@.len(),
                        wf_arena(nodes@, content@.len() as int),
                        k <= n,
                        root@.map_values(|r2: usize| r2 as int) == nodes@[idx as int]@
                            .children.subrange(0, k as int),
                        forall|m: int|
                            0 <= m < root@.len() ==> (#[trigger] root@[m] as int) < nodes@.len(),
                    decreases n - k,
                {
                    proof {
                        assert(wf_arena_node(nodes@[idx as int], idx as int, content@.len() as int));
                        assert(nodes@[idx as int]@.children[k as int] == nodes@[idx as int]
                            .children@[k as int] as int);
                    }
                    let c = nodes[idx].children[k];
                    let ghost old_root = root@.map_values(|r2: usize| r2 as int);
                    root.push(c);
                    proof {
                        assert(root@.map_values(|r2: usize| r2 as int) =~= old_root + seq![
                            c as int,
                        ]);
                        assert(old_root + seq![c as int] =~= nodes@[idx as int]@.children.subrange(
                            0,
                            k as int + 1,
                        ));
                    }
                    k = k + 1;
                }
                proof {
                    assert(nodes@[idx as int]@.children.subrange(
                        0,
                        nodes@[idx as int]@.children.len() as int,
                    ) =~= nodes@[idx as int]@.children);
                }
            } else {
                root.push(idx);
                proof {
                    assert(root@.map_values(|r2: usize| r2 as int) =~= seq![idx as int]);
                }
            }
        },
        None => {
            proof {
                assert(root@.map_values(|r2: usize| r2 as int) =~= Seq::<int>::empty());
            }
        },
    }
    let t = HtmlTemplate { name: tname, properties: props, root, nodes, content };
    proof {
        assert(t@.nodes == nodes_view(t.nodes@));
        assert(t@.content == content_view(t.content@));
    }
    Ok(t)
}

} // verus!
