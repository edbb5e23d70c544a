//! From bytes to an element, in two verified steps.
//!
//! [`scan`] walks the bytes token by token and turns each token into an
//! [`XmlEvent`]; what the tokenizer says of the bytes enters its contract by
//! name. [`Element::assemble`] builds the element from the events; its contract
//! is exact and speaks of plain values only.

use crate::element::{
    attribute_pairs, copy_attributes, node_views, Attribute, DecodeError, Element, ElementView,
    Node, NodeView,
};
use crate::text::text_of_bytes;
use crate::xml::{
    head_of, lemma_head_span, read_attribute, read_tag_name, take_head, unescape_text,
    xml_attribute, xml_tag_name, xml_unescaped, HeadKind, XmlAttributeKind,
};
use vstd::prelude::*;
use vstd::utf8::{decode_utf8, valid_utf8};

verus! {

/// One step of a document as the library sees it.
#[derive(Clone, Debug)]
pub enum XmlEvent {
    /// An opening tag.
    Open { name: String, attributes: Vec<Attribute> },
    /// A self-closing tag.
    Leaf { name: String, attributes: Vec<Attribute> },
    /// A closing tag.
    Close,
    /// Text, with character references resolved.
    Text(String),
}

/// The mathematical value of an [`XmlEvent`].
pub ghost enum XmlEventView {
    Open { name: Seq<char>, attributes: Seq<(Seq<char>, Seq<char>)> },
    Leaf { name: Seq<char>, attributes: Seq<(Seq<char>, Seq<char>)> },
    Close,
    Text(Seq<char>),
}

impl View for XmlEvent {
    type V = XmlEventView;

    open spec fn view(&self) -> XmlEventView {
        match self {
            XmlEvent::Open { name, attributes } => XmlEventView::Open {
                name: name@,
                attributes: attribute_pairs(attributes@),
            },
            XmlEvent::Leaf { name, attributes } => XmlEventView::Leaf {
                name: name@,
                attributes: attribute_pairs(attributes@),
            },
            XmlEvent::Close => XmlEventView::Close,
            XmlEvent::Text(t) => XmlEventView::Text(t@),
        }
    }
}

/// The values of a list of events, in order.
pub open spec fn event_views(events: Seq<XmlEvent>) -> Seq<XmlEventView> {
    events.map_values(|e: XmlEvent| e@)
}

/// The text that raw bytes stand for: their characters with the references
/// resolved, or as they are where the tokenizer refuses a reference; nothing
/// where the bytes are not UTF-8.
pub open spec fn resolved_text(raw: Seq<u8>) -> Option<Seq<char>> {
    if valid_utf8(raw) {
        match xml_unescaped(decode_utf8(raw)) {
            Some(t) => Some(t),
            None => Some(decode_utf8(raw)),
        }
    } else {
        None
    }
}

/// The attributes of the tag at the head of `input`, from position `from` up
/// to `limit`, in order. What the tokenizer cannot read as an attribute, and
/// what is not UTF-8, is left out.
pub open spec fn tag_attributes(input: Seq<u8>, from: usize, limit: usize) -> Seq<
    (Seq<char>, Seq<char>),
>
    decreases limit - from,
{
    if from >= limit {
        Seq::empty()
    } else {
        let found = xml_attribute(input, from);
        let rest = tag_attributes(input, (from + 1) as usize, limit);
        match found.0 {
            XmlAttributeKind::Absent => Seq::empty(),
            XmlAttributeKind::Unreadable => rest,
            XmlAttributeKind::Present => if valid_utf8(found.1) && resolved_text(found.2) is Some {
                seq![(decode_utf8(found.1), resolved_text(found.2).unwrap())] + rest
            } else {
                rest
            },
        }
    }
}

/// The events of `input` behind the events `seen`, or why there are none.
///
/// Comments and their like are passed over. Bytes that are not XML, and a
/// token that the input ends in, make the whole fail.
pub open spec fn scanned_after(seen: Seq<XmlEventView>, input: Seq<u8>) -> Result<
    Seq<XmlEventView>,
    DecodeError,
>
    decreases input.len(),
{
    let head = head_of(input);
    let rest = input.skip(head.2);
    if head.2 <= 0 || head.2 > input.len() {
        if head.0 == HeadKind::Blank {
            Ok(seen)
        } else {
            Err(DecodeError::Malformed)
        }
    } else {
        match head.0 {
            HeadKind::Blank => Ok(seen),
            HeadKind::Partial | HeadKind::Broken => Err(DecodeError::Malformed),
            HeadKind::Other => scanned_after(seen, rest),
            HeadKind::End => scanned_after(seen.push(XmlEventView::Close), rest),
            HeadKind::Text => match resolved_text(head.1) {
                Some(t) => scanned_after(seen.push(XmlEventView::Text(t)), rest),
                None => Err(DecodeError::NotText),
            },
            HeadKind::Start => if valid_utf8(xml_tag_name(input)) {
                scanned_after(
                    seen.push(
                        XmlEventView::Open {
                            name: decode_utf8(xml_tag_name(input)),
                            attributes: tag_attributes(input, 0, head.2 as usize),
                        },
                    ),
                    rest,
                )
            } else {
                Err(DecodeError::NotText)
            },
            HeadKind::Empty => if valid_utf8(xml_tag_name(input)) {
                scanned_after(
                    seen.push(
                        XmlEventView::Leaf {
                            name: decode_utf8(xml_tag_name(input)),
                            attributes: tag_attributes(input, 0, head.2 as usize),
                        },
                    ),
                    rest,
                )
            } else {
                Err(DecodeError::NotText)
            },
        }
    }
}

/// The events of `input`, or why there are none.
pub open spec fn scanned(input: Seq<u8>) -> Result<Seq<XmlEventView>, DecodeError> {
    scanned_after(Seq::empty(), input)
}

/// Resolves the references in raw bytes.
fn resolve_text(raw: &[u8]) -> (r: Option<String>)
    ensures
        match r {
            Some(t) => resolved_text(raw@) == Some(t@),
            None => resolved_text(raw@) is None,
        },
{
    match text_of_bytes(raw) {
        None => None,
        Some(text) => match unescape_text(text.as_str()) {
            Some(t) => Some(t),
            None => Some(text),
        },
    }
}

/// Collects the attributes of the tag at the head of `input`.
fn read_attributes(input: &[u8], limit: usize) -> (r: Vec<Attribute>)
    ensures
        attribute_pairs(r@) == tag_attributes(input@, 0, limit),
{
    let mut attributes: Vec<Attribute> = Vec::new();
    let mut i: usize = 0;
    proof {
        assert(attribute_pairs(attributes@) =~= Seq::empty());
    }
    while i < limit
        invariant
            i <= limit,
            attribute_pairs(attributes@) + tag_attributes(input@, i, limit) == tag_attributes(
                input@,
                0,
                limit,
            ),
        decreases limit - i,
    {
        let ghost before = attribute_pairs(attributes@);
        let found = read_attribute(input, i);
        match found.kind {
            XmlAttributeKind::Absent => {
                proof {
                    assert(before + Seq::empty() =~= before);
                }
                return attributes;
            },
            XmlAttributeKind::Unreadable => {},
            XmlAttributeKind::Present => {
                let name = text_of_bytes(found.key.as_slice());
                let value = resolve_text(found.value.as_slice());
                match (name, value) {
                    (Some(name), Some(value)) => {
                        attributes.push(Attribute { name, value });
                        proof {
                            let pair = (
                                decode_utf8(found.key@),
                                resolved_text(found.value@).unwrap(),
                            );
                            assert(attribute_pairs(attributes@) =~= before.push(pair));
                            assert(before.push(pair) + tag_attributes(
                                input@,
                                (i + 1) as usize,
                                limit,
                            ) =~= before + tag_attributes(input@, i, limit));
                        }
                    },
                    _ => {},
                }
            },
        }
        i += 1;
    }
    proof {
        assert(attribute_pairs(attributes@) + Seq::empty() =~= attribute_pairs(attributes@));
    }
    attributes
}

/// Reads a document into events.
///
/// The result is [`scanned`] of the bytes: the tokens in order, each tag with
/// its name and attributes, each text with its references resolved.
pub fn scan(document: &[u8]) -> (r: Result<Vec<XmlEvent>, DecodeError>)
    ensures
        match r {
            Ok(events) => scanned(document@) == Ok::<Seq<XmlEventView>, DecodeError>(
                event_views(events@),
            ),
            Err(e) => scanned(document@) == Err::<Seq<XmlEventView>, DecodeError>(e),
        },
{
    let mut events: Vec<XmlEvent> = Vec::new();
    let mut pos: usize = 0;
    let len = document.len();
    proof {
        assert(event_views(events@) =~= Seq::empty());
        assert(document@.skip(0) =~= document@);
    }
    while pos < len
        invariant
            pos <= len,
            len == document@.len(),
            scanned_after(event_views(events@), document@.skip(pos as int)) == scanned(document@),
        decreases len - pos,
    {
        let rest = &document[pos..len];
        let ghost input = document@.skip(pos as int);
        let ghost seen = event_views(events@);
        proof {
            assert(rest@ =~= input);
            lemma_head_span(input);
        }
        let head = take_head(rest);
        proof {
            assert(input.skip(head.span as int) =~= document@.skip(pos + head.span));
        }
        match head.kind {
            HeadKind::Blank => {
                return Ok(events);
            },
            HeadKind::Partial | HeadKind::Broken => {
                return Err(DecodeError::Malformed);
            },
            HeadKind::Other => {},
            HeadKind::End => {
                events.push(XmlEvent::Close);
                proof {
                    assert(event_views(events@) =~= seen.push(XmlEventView::Close));
                }
            },
            HeadKind::Text => {
                match resolve_text(head.content.as_slice()) {
                    Some(t) => {
                        let ghost view = XmlEventView::Text(t@);
                        events.push(XmlEvent::Text(t));
                        proof {
                            assert(event_views(events@) =~= seen.push(view));
                        }
                    },
                    None => {
                        return Err(DecodeError::NotText);
                    },
                }
            },
            HeadKind::Start => {
                let raw_name = read_tag_name(rest);
                match text_of_bytes(raw_name.as_slice()) {
                    Some(name) => {
                        let attributes = read_attributes(rest, head.span);
                        let ghost view = XmlEventView::Open {
                            name: name@,
                            attributes: attribute_pairs(attributes@),
                        };
                        events.push(XmlEvent::Open { name, attributes });
                        proof {
                            assert(event_views(events@) =~= seen.push(view));
                        }
                    },
                    None => {
                        return Err(DecodeError::NotText);
                    },
                }
            },
            HeadKind::Empty => {
                let raw_name = read_tag_name(rest);
                match text_of_bytes(raw_name.as_slice()) {
                    Some(name) => {
                        let attributes = read_attributes(rest, head.span);
                        let ghost view = XmlEventView::Leaf {
                            name: name@,
                            attributes: attribute_pairs(attributes@),
                        };
                        events.push(XmlEvent::Leaf { name, attributes });
                        proof {
                            assert(event_views(events@) =~= seen.push(view));
                        }
                    },
                    None => {
                        return Err(DecodeError::NotText);
                    },
                }
            },
        }
        pos = pos + head.span;
    }
    proof {
        assert(document@.skip(pos as int) =~= Seq::<u8>::empty());
    }
    Ok(events)
}

/// What has been built of an element while its events come in.
pub ghost struct Assembly {
    /// How many tags are open.
    pub depth: nat,
    /// The element's own tag, once seen.
    pub root: Option<NodeView>,
    /// The tags directly inside it, so far.
    pub children: Seq<NodeView>,
    /// Whether the element's own tag has been closed.
    pub closed: bool,
}

/// Nothing built yet.
pub open spec fn assembly_start() -> Assembly {
    Assembly { depth: 0, root: None, children: Seq::empty(), closed: false }
}

/// A node with the given tag and no text.
pub open spec fn bare_node(name: Seq<char>, attributes: Seq<(Seq<char>, Seq<char>)>) -> NodeView {
    NodeView { name, attributes, text: Seq::empty() }
}

/// What one event adds to the element under construction.
///
/// The first tag becomes the element's own; tags directly inside it become its
/// children; text goes to the tag it stands directly in. Whatever nests deeper,
/// stands outside the element's tag, or follows its end is passed over. A
/// closing tag with no tag open is an error.
pub open spec fn assemble_step(state: Assembly, event: XmlEventView) -> Result<
    Assembly,
    DecodeError,
> {
    if state.closed {
        Ok(state)
    } else {
        match event {
            XmlEventView::Open { name, attributes } => if state.depth == 0 {
                Ok(Assembly { depth: 1, root: Some(bare_node(name, attributes)), ..state })
            } else if state.depth == 1 {
                Ok(
                    Assembly {
                        depth: 2,
                        children: state.children.push(bare_node(name, attributes)),
                        ..state
                    },
                )
            } else {
                Ok(Assembly { depth: state.depth + 1, ..state })
            },
            XmlEventView::Leaf { name, attributes } => if state.depth == 0 {
                Ok(Assembly { root: Some(bare_node(name, attributes)), closed: true, ..state })
            } else if state.depth == 1 {
                Ok(
                    Assembly {
                        children: state.children.push(bare_node(name, attributes)),
                        ..state
                    },
                )
            } else {
                Ok(state)
            },
            XmlEventView::Text(t) => if state.depth == 1 && state.root is Some {
                let root = state.root.unwrap();
                Ok(Assembly { root: Some(NodeView { text: root.text + t, ..root }), ..state })
            } else if state.depth == 2 && state.children.len() > 0 {
                let last = state.children.last();
                Ok(
                    Assembly {
                        children: state.children.drop_last().push(
                            NodeView { text: last.text + t, ..last },
                        ),
                        ..state
                    },
                )
            } else {
                Ok(state)
            },
            XmlEventView::Close => if state.depth == 0 {
                Err(DecodeError::Malformed)
            } else if state.depth == 1 {
                Ok(Assembly { depth: 0, closed: true, ..state })
            } else {
                Ok(Assembly { depth: (state.depth - 1) as nat, ..state })
            },
        }
    }
}

/// The value of a node that may be missing.
pub open spec fn optional_node_view(node: Option<Node>) -> Option<NodeView> {
    match node {
        Some(n) => Some(n@),
        None => None,
    }
}

/// The element that is complete in `state`, if one is.
pub open spec fn assembly_result(state: Assembly) -> Result<ElementView, DecodeError> {
    if state.closed && state.root is Some {
        Ok(ElementView { root: state.root.unwrap(), children: state.children })
    } else {
        Err(DecodeError::NoElement)
    }
}

/// Folds [`assemble_step`] over `events` and takes the result.
pub open spec fn assembled_from(state: Assembly, events: Seq<XmlEventView>) -> Result<
    ElementView,
    DecodeError,
>
    decreases events.len(),
{
    if events.len() == 0 {
        assembly_result(state)
    } else {
        match assemble_step(state, events[0]) {
            Ok(next) => assembled_from(next, events.drop_first()),
            Err(e) => Err(e),
        }
    }
}

/// The element that `events` describe, or why they describe none.
pub open spec fn assembled(events: Seq<XmlEventView>) -> Result<ElementView, DecodeError> {
    assembled_from(assembly_start(), events)
}

impl Element {
    /// Builds the element that a list of events describes.
    ///
    /// Succeeds exactly when the events open a tag and close it again, or are
    /// one self-closing tag, with no closing tag before any was opened.
    pub fn assemble(events: &Vec<XmlEvent>) -> (r: Result<Element, DecodeError>)
        ensures
            match r {
                Ok(element) => assembled(event_views(events@)) == Ok::<ElementView, DecodeError>(
                    element@,
                ),
                Err(e) => assembled(event_views(events@)) == Err::<ElementView, DecodeError>(e),
            },
    {
        let ghost views = event_views(events@);
        let mut depth: usize = 0;
        let mut root: Option<Node> = None;
        let mut children: Vec<Node> = Vec::new();
        let mut closed = false;
        let mut i: usize = 0;
        proof {
            assert(views.skip(0) =~= views);
            assert(node_views(children@) =~= Seq::empty());
        }
        while i < events.len()
            invariant
                i <= events@.len(),
                views == event_views(events@),
                depth <= i,
                assembled_from(
                    Assembly {
                        depth: depth as nat,
                        root: optional_node_view(root),
                        children: node_views(children@),
                        closed,
                    },
                    views.skip(i as int),
                ) == assembled(views),
            decreases events@.len() - i,
        {
            let ghost before = node_views(children@);
            proof {
                assert(views.skip(i as int)[0] == events@[i as int]@);
                assert(views.skip(i as int).drop_first() =~= views.skip(i + 1));
            }
            if !closed {
                match &events[i] {
                    XmlEvent::Open { name, attributes } => {
                        if depth == 0 {
                            root = Some(
                                Node {
                                    name: name.clone(),
                                    attributes: copy_attributes(attributes),
                                    text: String::new(),
                                },
                            );
                            depth = 1;
                        } else if depth == 1 {
                            let node = Node {
                                name: name.clone(),
                                attributes: copy_attributes(attributes),
                                text: String::new(),
                            };
                            children.push(node);
                            depth = 2;
                            proof {
                                assert(node_views(children@) =~= before.push(
                                    bare_node(name@, attribute_pairs(attributes@)),
                                ));
                            }
                        } else {
                            depth = depth + 1;
                        }
                    },
                    XmlEvent::Leaf { name, attributes } => {
                        if depth == 0 {
                            root = Some(
                                Node {
                                    name: name.clone(),
                                    attributes: copy_attributes(attributes),
                                    text: String::new(),
                                },
                            );
                            closed = true;
                        } else if depth == 1 {
                            let node = Node {
                                name: name.clone(),
                                attributes: copy_attributes(attributes),
                                text: String::new(),
                            };
                            children.push(node);
                            proof {
                                assert(node_views(children@) =~= before.push(
                                    bare_node(name@, attribute_pairs(attributes@)),
                                ));
                            }
                        }
                    },
                    XmlEvent::Text(t) => {
                        if depth == 1 {
                            match root {
                                Some(mut node) => {
                                    node.text.append(t.as_str());
                                    root = Some(node);
                                },
                                None => {},
                            }
                        } else if depth == 2 && children.len() > 0 {
                            let popped = children.pop();
                            match popped {
                                Some(mut node) => {
                                    let ghost last = node@;
                                    node.text.append(t.as_str());
                                    let ghost changed = node@;
                                    children.push(node);
                                    proof {
                                        assert(last == before.last());
                                        assert(node_views(children@) =~= before.drop_last().push(
                                            changed,
                                        ));
                                    }
                                },
                                None => {},
                            }
                        }
                    },
                    XmlEvent::Close => {
                        if depth == 0 {
                            return Err(DecodeError::Malformed);
                        } else if depth == 1 {
                            depth = 0;
                            closed = true;
                        } else {
                            depth = depth - 1;
                        }
                    },
                }
            }
            i += 1;
        }
        proof {
            assert(views.skip(i as int) =~= Seq::empty());
        }
        if closed {
            match root {
                Some(node) => Ok(Element { root: node, children }),
                None => Err(DecodeError::NoElement),
            }
        } else {
            Err(DecodeError::NoElement)
        }
    }

    /// Reads a document into an element: [`scan`], then [`Element::assemble`].
    pub fn parse(document: &[u8]) -> (r: Result<Element, DecodeError>)
        ensures
            match r {
                Ok(element) => parsed(document@) == Ok::<ElementView, DecodeError>(element@),
                Err(e) => parsed(document@) == Err::<ElementView, DecodeError>(e),
            },
    {
        match scan(document) {
            Ok(events) => Element::assemble(&events),
            Err(e) => Err(e),
        }
    }
}

/// The element that the bytes of a document describe, or why they describe
/// none.
pub open spec fn parsed(document: Seq<u8>) -> Result<ElementView, DecodeError> {
    match scanned(document) {
        Ok(events) => assembled(events),
        Err(e) => Err(e),
    }
}

} // verus!
