//! The parsed document model: node kinds, attributes, expression tokens,
//! event listeners, and the immutable template a parse produces.
//!
//! Templates store their nodes in an arena: `children` holds indices into
//! the node table, and every child index is smaller than its parent's, so
//! walking a well-formed template always terminates.

use vstd::prelude::*;
use crate::props::TemplateProperties;
use crate::style::StyleDirective;
use crate::style::SpecStyleDirective;

verus! {

/// The kind of a markup element. The fixed tag names map to the first
/// seven kinds; any other tag name is a custom component reference.
#[derive(Debug, PartialEq, Eq)]
pub enum NodeType {
    Node,
    Image,
    Text,
    Button,
    Slot,
    Template,
    Property,
    Custom(Vec<u8>),
}

/// The mathematical value of a [`NodeType`].
pub enum SpecNodeType {
    Node,
    Image,
    Text,
    Button,
    Slot,
    Template,
    Property,
    Custom(Seq<u8>),
}

impl View for NodeType {
    type V = SpecNodeType;

    open spec fn view(&self) -> SpecNodeType {
        match self {
            NodeType::Node => SpecNodeType::Node,
            NodeType::Image => SpecNodeType::Image,
            NodeType::Text => SpecNodeType::Text,
            NodeType::Button => SpecNodeType::Button,
            NodeType::Slot => SpecNodeType::Slot,
            NodeType::Template => SpecNodeType::Template,
            NodeType::Property => SpecNodeType::Property,
            NodeType::Custom(name) => SpecNodeType::Custom(name@),
        }
    }
}

impl Clone for NodeType {
    /// A clone carries the same mathematical value as the original.
    fn clone(&self) -> (r: Self)
        ensures
            r@ == self@,
    {
        match self {
            NodeType::Node => NodeType::Node,
            NodeType::Image => NodeType::Image,
            NodeType::Text => NodeType::Text,
            NodeType::Button => NodeType::Button,
            NodeType::Slot => NodeType::Slot,
            NodeType::Template => NodeType::Template,
            NodeType::Property => NodeType::Property,
            NodeType::Custom(name) => NodeType::Custom(crate::util::clone_vec_copy(name)),
        }
    }
}

/// The five event attributes a node can listen on.
#[derive(Clone, Copy, Debug, PartialEq, Eq, Structural)]
pub enum EventKind {
    OnEnter,
    OnExit,
    OnPress,
    OnSpawn,
    OnChange,
}

/// One event listener: the event it reacts to and the handler names to
/// run, in the order they were written.
#[derive(Debug, PartialEq, Eq)]
pub struct Action {
    pub kind: EventKind,
    pub handlers: Vec<Vec<u8>>,
}

/// The mathematical value of an [`Action`].
pub struct SpecAction {
    pub kind: EventKind,
    pub handlers: Seq<Seq<u8>>,
}

impl View for Action {
    type V = SpecAction;

    open spec fn view(&self) -> SpecAction {
        SpecAction { kind: self.kind, handlers: self.handlers@.map_values(|h: Vec<u8>| h@) }
    }
}

/// An unresolved expression placeholder `prefix:ident="{ key }"`: the value
/// is looked up under `key` in the nearest property scope and then
/// interpreted as if it had been written literally under `ident`.
#[derive(Debug, PartialEq, Eq)]
pub struct AttrTokens {
    pub prefix: Option<Vec<u8>>,
    pub ident: Vec<u8>,
    pub key: Vec<u8>,
}

/// The mathematical value of an [`AttrTokens`].
pub struct SpecAttrTokens {
    pub prefix: Option<Seq<u8>>,
    pub ident: Seq<u8>,
    pub key: Seq<u8>,
}

impl View for AttrTokens {
    type V = SpecAttrTokens;

    open spec fn view(&self) -> SpecAttrTokens {
        SpecAttrTokens {
            prefix: match self.prefix {
                Option::Some(ref p) => Option::Some(p@),
                Option::None => Option::None,
            },
            ident: self.ident@,
            key: self.key@,
        }
    }
}

/// One interpreted attribute.
#[derive(Debug, PartialEq, Eq)]
pub enum Attribute {
    /// A style directive, possibly hover/pressed/active wrapped.
    Style(StyleDirective),
    /// A key/value default for a custom component.
    PropertyDefinition(Vec<u8>, Vec<u8>),
    /// An expression placeholder, compiled later against a property scope.
    Uncompiled(AttrTokens),
    /// An event listener binding.
    Action(Action),
    /// An asset path (`src`, fonts).
    Path(Vec<u8>),
    /// A reference to another node by id (`target`).
    Target(Vec<u8>),
    /// This node's id.
    Id(Vec<u8>),
    /// A free-form `tag:key="value"` entry.
    Tag(Vec<u8>, Vec<u8>),
    /// Follow another node's interaction state (`watch`).
    Watch(Vec<u8>),
}

/// The mathematical value of an [`Attribute`].
pub enum SpecAttribute {
    Style(SpecStyleDirective),
    PropertyDefinition(Seq<u8>, Seq<u8>),
    Uncompiled(SpecAttrTokens),
    Action(SpecAction),
    Path(Seq<u8>),
    Target(Seq<u8>),
    Id(Seq<u8>),
    Tag(Seq<u8>, Seq<u8>),
    Watch(Seq<u8>),
}

impl View for Attribute {
    type V = SpecAttribute;

    open spec fn view(&self) -> SpecAttribute {
        match self {
            Attribute::Style(d) => SpecAttribute::Style(d@),
            Attribute::PropertyDefinition(k, v) => SpecAttribute::PropertyDefinition(k@, v@),
            Attribute::Uncompiled(t) => SpecAttribute::Uncompiled(t@),
            Attribute::Action(a) => SpecAttribute::Action(a@),
            Attribute::Path(p) => SpecAttribute::Path(p@),
            Attribute::Target(t) => SpecAttribute::Target(t@),
            Attribute::Id(i) => SpecAttribute::Id(i@),
            Attribute::Tag(k, v) => SpecAttribute::Tag(k@, v@),
            Attribute::Watch(w) => SpecAttribute::Watch(w@),
        }
    }
}

/// One parsed markup node, owned by its template's node arena.
pub struct XNode {
    /// What element this is.
    pub node_type: NodeType,
    /// Style directives, in the order the attributes were written.
    pub styles: Vec<StyleDirective>,
    /// Unresolved expression placeholders.
    pub uncompiled: Vec<AttrTokens>,
    /// Free-form `tag:*` entries.
    pub tags: TemplateProperties,
    /// Key/value defaults a custom element declares through unrecognized
    /// attributes.
    pub defs: TemplateProperties,
    /// Event listeners.
    pub event_listener: Vec<Action>,
    /// This node's id, unique within an instantiated tree (last wins).
    pub id: Option<Vec<u8>>,
    /// An id reference resolved to a direct node reference at build time.
    pub target: Option<Vec<u8>>,
    /// The id of a node whose interaction state this node follows.
    pub watch: Option<Vec<u8>>,
    /// An asset path.
    pub src: Option<Vec<u8>>,
    /// Index of this node's raw text in the template's content table.
    pub content_index: Option<usize>,
    /// Child nodes, as indices into the arena; each is smaller than the
    /// owning node's own index.
    pub children: Vec<usize>,
}

/// The mathematical value of an [`XNode`]: every list as a sequence,
/// every map as a mathematical map, children as integer indices.
pub struct SpecXNode {
    pub node_type: SpecNodeType,
    pub styles: Seq<SpecStyleDirective>,
    pub uncompiled: Seq<SpecAttrTokens>,
    pub tags: Map<Seq<u8>, Seq<u8>>,
    pub defs: Map<Seq<u8>, Seq<u8>>,
    pub event_listener: Seq<SpecAction>,
    pub id: Option<Seq<u8>>,
    pub target: Option<Seq<u8>>,
    pub watch: Option<Seq<u8>>,
    pub src: Option<Seq<u8>>,
    pub content_index: Option<int>,
    pub children: Seq<int>,
}

/// The view of an optional owned byte string.
pub open spec fn view_opt_bytes(o: Option<Vec<u8>>) -> Option<Seq<u8>> {
    match o {
        Option::Some(v) => Option::Some(v@),
        Option::None => Option::None,
    }
}

impl View for XNode {
    type V = SpecXNode;

    open spec fn view(&self) -> SpecXNode {
        SpecXNode {
            node_type: self.node_type@,
            styles: self.styles@.map_values(|d: StyleDirective| d@),
            uncompiled: self.uncompiled@.map_values(|t: AttrTokens| t@),
            tags: self.tags.as_map(),
            defs: self.defs.as_map(),
            event_listener: self.event_listener@.map_values(|a: Action| a@),
            id: view_opt_bytes(self.id),
            target: view_opt_bytes(self.target),
            watch: view_opt_bytes(self.watch),
            src: view_opt_bytes(self.src),
            content_index: match self.content_index {
                Option::Some(c) => Option::Some(c as int),
                Option::None => Option::None,
            },
            children: self.children@.map_values(|c: usize| c as int),
        }
    }
}

/// The mathematical value of an [`HtmlTemplate`].
pub struct SpecTemplate {
    pub name: Option<Seq<u8>>,
    pub properties: Map<Seq<u8>, Seq<u8>>,
    pub root: Seq<int>,
    pub nodes: Seq<SpecXNode>,
    pub content: Seq<Seq<u8>>,
}

/// An immutable parsed document: one node arena, the index of the root
/// node(s), a content table for raw text, and declared default properties.
pub struct HtmlTemplate {
    /// Declared template name, if a `<name>` element was present.
    pub name: Option<Vec<u8>>,
    /// Declared default properties from `<property>` elements.
    pub properties: TemplateProperties,
    /// Root node indices. Exactly one root is supported; instantiation
    /// takes the first and warns about the rest.
    pub root: Vec<usize>,
    /// The node arena, in post-order: children precede their parent.
    pub nodes: Vec<XNode>,
    /// Raw text fragments referenced by `content_index`.
    pub content: Vec<Vec<u8>>,
}

/// Well-formedness of one arena node standing at index `i`: children
/// point strictly downward, the content index is valid, and the node's
/// maps have unique keys.
pub open spec fn wf_arena_node(n: XNode, i: int, clen: int) -> bool {
    &&& forall|j: int| 0 <= j < n.children@.len() ==> (n.children@[j] as int) < i
    &&& match n.content_index {
        Option::Some(c) => (c as int) < clen,
        Option::None => true,
    }
    &&& n.tags.wf()
    &&& n.defs.wf()
}

/// A well-formed node arena against a content table of `clen` entries.
pub open spec fn wf_arena(nodes: Seq<XNode>, clen: int) -> bool {
    forall|i: int| 0 <= i < nodes.len() ==> wf_arena_node(#[trigger] nodes[i], i, clen)
}

/// A well-formed template: every node and root index is in bounds, every
/// node is well-formed, and the property map has unique keys.
pub open spec fn wf_template(t: HtmlTemplate) -> bool {
    &&& wf_arena(t.nodes@, t.content@.len() as int)
    &&& forall|r: int| 0 <= r < t.root@.len() ==> (t.root@[r] as int) < t.nodes@.len()
    &&& t.properties.wf()
}

impl View for HtmlTemplate {
    type V = SpecTemplate;

    open spec fn view(&self) -> SpecTemplate {
        SpecTemplate {
            name: view_opt_bytes(self.name),
            properties: self.properties.as_map(),
            root: self.root@.map_values(|r: usize| r as int),
            nodes: self.nodes@.map_values(|n: XNode| n@),
            content: self.content@.map_values(|c: Vec<u8>| c@),
        }
    }
}

/// Why a document was rejected.
#[derive(Clone, Copy, Debug, PartialEq, Eq, Structural)]
pub enum ParseErrorKind {
    /// The markup shape itself is broken (tag syntax, attribute syntax,
    /// missing quote, stray bytes).
    Malformed,
    /// A closing tag does not match the element it should close.
    UnclosedTag,
    /// An attribute name that is neither structural nor a known style
    /// field, outside the custom-element fallback.
    UnknownStyle,
    /// A style value that its field's micro-grammar rejects.
    BadStyleValue,
    /// The buffer ended in the middle of a construct.
    Incomplete,
}

/// A fatal parse error: the position in the input and what went wrong.
/// Parse errors abort the whole document; everything downstream of a
/// successful parse degrades field by field instead.
#[derive(Clone, Copy, Debug, PartialEq, Eq, Structural)]
pub struct ParseError {
    pub pos: usize,
    pub kind: ParseErrorKind,
}

impl ParseError {
    /// A short human-readable statement of the expected syntax.
    pub fn describe(&self) -> (r: &'static str)
        ensures
            r@.len() > 0,
    {
        let r = match self.kind {
            ParseErrorKind::Malformed => "malformed markup",
            ParseErrorKind::UnclosedTag => "start and end tag names do not match",
            ParseErrorKind::UnknownStyle => "not a valid style attribute name",
            ParseErrorKind::BadStyleValue => "value rejected by the style field grammar",
            ParseErrorKind::Incomplete => "input ended inside a construct",
        };
        proof {
            reveal_strlit("malformed markup");
            reveal_strlit("start and end tag names do not match");
            reveal_strlit("not a valid style attribute name");
            reveal_strlit("value rejected by the style field grammar");
            reveal_strlit("input ended inside a construct");
        }
        r
    }
}

} // verus!
