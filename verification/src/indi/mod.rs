//! The message catalog of the protocol: every kind of message that may
//! arrive, and the dispatch from a document's root tag to its kind.

pub mod blob;
pub mod common;
pub mod connection;
pub mod del;
pub mod enable_blob;
pub mod get_properties;
pub mod light;
pub mod message;
pub mod number;
pub mod switch;
pub mod text;

use crate::document::parsed;
use crate::element::{
    attribute_map, attribute_pairs, lemma_attribute_map_holds_all, node_views, DecodeError,
    Element, ElementView, NodeView, TextMap,
};
use crate::indi::common::Shown;
use crate::text::text_eq;
use vstd::prelude::*;

verus! {

/// A message from the wire.
#[derive(Debug)]
pub enum IncomingMsg {
    DefSwitchVector(switch::DefSwitchVector),
    SetSwitchVector(switch::SetSwitchVector),
    DefTextVector(text::DefTextVector),
    SetTextVector(text::SetTextVector),
    DefNumberVector(number::DefNumberVector),
    SetNumberVector(number::SetNumberVector),
    DefLightVector(light::DefLightVector),
    DefBlobVector(blob::DefBlobVector),
    SetBlobVector(blob::SetBlobVector),
    Message(message::Message),
    DelProperty(del::DelProperty),
    GetProperties(get_properties::GetProperties),
    EnableBLOB(enable_blob::EnableBLOB),
    /// A document whose root tag the catalog does not know, kept as a map from
    /// names to texts.
    Unparsed(TextMap),
}

/// Whether the catalog knows a root tag.
pub open spec fn is_catalog_tag(tag: Seq<char>) -> bool {
    ||| tag == "defSwitchVector"@
    ||| tag == "setSwitchVector"@
    ||| tag == "defTextVector"@
    ||| tag == "setTextVector"@
    ||| tag == "defNumberVector"@
    ||| tag == "setNumberVector"@
    ||| tag == "defLightVector"@
    ||| tag == "defBLOBVector"@
    ||| tag == "setBLOBVector"@
    ||| tag == "message"@
    ||| tag == "delProperty"@
    ||| tag == "getProperties"@
    ||| tag == "enableBLOB"@
}

/// The children of an element as pairs of tag and text.
pub open spec fn child_pairs(children: Seq<NodeView>) -> Seq<(Seq<char>, Seq<char>)> {
    children.map_values(|c: NodeView| (c.name, c.text))
}

/// The text of an element as a pair under the name `$text`; nothing where the
/// text is empty.
pub open spec fn text_pairs(text: Seq<char>) -> Seq<(Seq<char>, Seq<char>)> {
    if text.len() > 0 {
        seq![("$text"@, text)]
    } else {
        Seq::empty()
    }
}

/// Everything an element of unknown kind says, as pairs: its children, its
/// text, its attributes. The attributes stand last, so that none of them is
/// hidden by a child or by the text.
pub open spec fn generic_pairs(e: ElementView) -> Seq<(Seq<char>, Seq<char>)> {
    child_pairs(e.children) + text_pairs(e.root.text) + e.root.attributes
}

/// The map that a document of unknown kind decodes to.
pub open spec fn generic_map(e: ElementView) -> Map<Seq<char>, Seq<char>> {
    attribute_map(generic_pairs(e))
}

/// Behind other pairs, a list of pairs still decides the keys it holds.
pub proof fn lemma_attribute_map_suffix(
    front: Seq<(Seq<char>, Seq<char>)>,
    back: Seq<(Seq<char>, Seq<char>)>,
    key: Seq<char>,
)
    requires
        attribute_map(back).contains_key(key),
    ensures
        attribute_map(front + back).contains_key(key),
        attribute_map(front + back)[key] == attribute_map(back)[key],
    decreases back.len(),
{
    if back.len() > 0 {
        assert((front + back).drop_last() =~= front + back.drop_last());
        assert((front + back).last() == back.last());
        if back.last().0 != key {
            lemma_attribute_map_suffix(front, back.drop_last(), key);
        }
    }
}

/// A document of unknown kind keeps every attribute of its root tag, with the
/// value that the tag gives it.
pub proof fn lemma_generic_map_keeps_attributes(e: ElementView, i: int)
    requires
        0 <= i < e.root.attributes.len(),
    ensures
        generic_map(e).contains_key(e.root.attributes[i].0),
        generic_map(e)[e.root.attributes[i].0] == e.root.value(e.root.attributes[i].0),
{
    lemma_attribute_map_holds_all(e.root.attributes, i);
    lemma_attribute_map_suffix(
        child_pairs(e.children) + text_pairs(e.root.text),
        e.root.attributes,
        e.root.attributes[i].0,
    );
}

impl IncomingMsg {
    /// Why the element is no message of the catalog, or `None` where it is one.
    /// An element with a known root tag is held to the shape of its kind; an
    /// element with any other root tag is always a message.
    pub open spec fn refusal(e: ElementView) -> Option<DecodeError> {
        let tag = e.root.name;
        if tag == "defSwitchVector"@ {
            switch::DefSwitchVector::refusal(e)
        } else if tag == "setSwitchVector"@ {
            switch::SetSwitchVector::refusal(e)
        } else if tag == "defTextVector"@ {
            text::DefTextVector::refusal(e)
        } else if tag == "setTextVector"@ {
            text::SetTextVector::refusal(e)
        } else if tag == "defNumberVector"@ {
            number::DefNumberVector::refusal(e)
        } else if tag == "setNumberVector"@ {
            number::SetNumberVector::refusal(e)
        } else if tag == "defLightVector"@ {
            light::DefLightVector::refusal(e)
        } else if tag == "defBLOBVector"@ {
            blob::DefBlobVector::refusal(e)
        } else if tag == "setBLOBVector"@ {
            blob::SetBlobVector::refusal(e)
        } else if tag == "message"@ {
            message::Message::refusal(e)
        } else if tag == "delProperty"@ {
            del::DelProperty::refusal(e)
        } else if tag == "getProperties"@ {
            get_properties::GetProperties::refusal(e)
        } else if tag == "enableBLOB"@ {
            enable_blob::EnableBLOB::refusal(e)
        } else {
            None
        }
    }

    /// Whether this message is what the element says: the kind that the root
    /// tag names, holding what the element says of that kind; for a root tag
    /// that the catalog does not know, the generic map of the element.
    pub open spec fn describes(&self, e: ElementView) -> bool {
        let tag = e.root.name;
        if tag == "defSwitchVector"@ {
            self matches IncomingMsg::DefSwitchVector(v) && v.describes(e)
        } else if tag == "setSwitchVector"@ {
            self matches IncomingMsg::SetSwitchVector(v) && v.describes(e)
        } else if tag == "defTextVector"@ {
            self matches IncomingMsg::DefTextVector(v) && v.describes(e)
        } else if tag == "setTextVector"@ {
            self matches IncomingMsg::SetTextVector(v) && v.describes(e)
        } else if tag == "defNumberVector"@ {
            self matches IncomingMsg::DefNumberVector(v) && v.describes(e)
        } else if tag == "setNumberVector"@ {
            self matches IncomingMsg::SetNumberVector(v) && v.describes(e)
        } else if tag == "defLightVector"@ {
            self matches IncomingMsg::DefLightVector(v) && v.describes(e)
        } else if tag == "defBLOBVector"@ {
            self matches IncomingMsg::DefBlobVector(v) && v.describes(e)
        } else if tag == "setBLOBVector"@ {
            self matches IncomingMsg::SetBlobVector(v) && v.describes(e)
        } else if tag == "message"@ {
            self matches IncomingMsg::Message(v) && v.describes(e)
        } else if tag == "delProperty"@ {
            self matches IncomingMsg::DelProperty(v) && v.describes(e)
        } else if tag == "getProperties"@ {
            self matches IncomingMsg::GetProperties(v) && v.describes(e)
        } else if tag == "enableBLOB"@ {
            self matches IncomingMsg::EnableBLOB(v) && v.describes(e)
        } else {
            self matches IncomingMsg::Unparsed(m) && m@ == generic_map(e)
        }
    }

    /// The generic map of an element.
    pub fn unparsed(e: &Element) -> (r: TextMap)
        ensures
            r@ == generic_map(e@),
    {
        let mut map = TextMap::new();
        let ghost children = child_pairs(node_views(e.children@));
        let ghost attributes = attribute_pairs(e.root.attributes@);
        let mut i: usize = 0;
        proof {
            assert(children.take(0) =~= Seq::empty());
        }
        while i < e.children.len()
            invariant
                i <= e.children@.len(),
                children == child_pairs(node_views(e.children@)),
                map@ == attribute_map(children.take(i as int)),
            decreases e.children@.len() - i,
        {
            proof {
                assert(children.take(i + 1).drop_last() =~= children.take(i as int));
            }
            map.insert(e.children[i].name.clone(), e.children[i].text.clone());
            i += 1;
        }
        proof {
            assert(children.take(i as int) =~= children);
        }
        let ghost front = children + text_pairs(e.root.text@);
        if !e.root.text.as_str().is_empty() {
            proof {
                assert(front.drop_last() =~= children);
            }
            map.insert(String::from_str("$text"), e.root.text.clone());
        } else {
            proof {
                assert(front =~= children);
            }
        }
        let mut j: usize = 0;
        proof {
            assert(front + attributes.take(0) =~= front);
        }
        while j < e.root.attributes.len()
            invariant
                j <= e.root.attributes@.len(),
                attributes == attribute_pairs(e.root.attributes@),
                map@ == attribute_map(front + attributes.take(j as int)),
            decreases e.root.attributes@.len() - j,
        {
            proof {
                assert((front + attributes.take(j + 1)).drop_last() =~= front + attributes.take(
                    j as int,
                ));
            }
            map.insert(e.root.attributes[j].name.clone(), e.root.attributes[j].value.clone());
            j += 1;
        }
        proof {
            assert(attributes.take(j as int) =~= attributes);
        }
        map
    }

    /// Reads a message from the element of its document.
    ///
    /// The root tag selects the kind. An element whose root tag the catalog
    /// does not know is never refused: it becomes `Unparsed`, a map that holds
    /// every attribute of the root tag.
    pub fn from_element(e: &Element) -> (r: Result<IncomingMsg, DecodeError>)
        ensures
            match r {
                Ok(m) => Self::refusal(e@) is None && m.describes(e@),
                Err(err) => Self::refusal(e@) == Some(err),
            },
            !is_catalog_tag(e@.root.name) ==> r is Ok,
    {
        let tag = e.root.name.as_str();
        if text_eq(tag, "defSwitchVector") {
            Ok(IncomingMsg::DefSwitchVector(switch::DefSwitchVector::from_element(e)?))
        } else if text_eq(tag, "setSwitchVector") {
            Ok(IncomingMsg::SetSwitchVector(switch::SetSwitchVector::from_element(e)?))
        } else if text_eq(tag, "defTextVector") {
            Ok(IncomingMsg::DefTextVector(text::DefTextVector::from_element(e)?))
        } else if text_eq(tag, "setTextVector") {
            Ok(IncomingMsg::SetTextVector(text::SetTextVector::from_element(e)?))
        } else if text_eq(tag, "defNumberVector") {
            Ok(IncomingMsg::DefNumberVector(number::DefNumberVector::from_element(e)?))
        } else if text_eq(tag, "setNumberVector") {
            Ok(IncomingMsg::SetNumberVector(number::SetNumberVector::from_element(e)?))
        } else if text_eq(tag, "defLightVector") {
            Ok(IncomingMsg::DefLightVector(light::DefLightVector::from_element(e)?))
        } else if text_eq(tag, "defBLOBVector") {
            Ok(IncomingMsg::DefBlobVector(blob::DefBlobVector::from_element(e)?))
        } else if text_eq(tag, "setBLOBVector") {
            Ok(IncomingMsg::SetBlobVector(blob::SetBlobVector::from_element(e)?))
        } else if text_eq(tag, "message") {
            Ok(IncomingMsg::Message(message::Message::from_element(e)?))
        } else if text_eq(tag, "delProperty") {
            Ok(IncomingMsg::DelProperty(del::DelProperty::from_element(e)?))
        } else if text_eq(tag, "getProperties") {
            Ok(IncomingMsg::GetProperties(get_properties::GetProperties::from_element(e)?))
        } else if text_eq(tag, "enableBLOB") {
            Ok(IncomingMsg::EnableBLOB(enable_blob::EnableBLOB::from_element(e)?))
        } else {
            Ok(IncomingMsg::Unparsed(Self::unparsed(e)))
        }
    }

    /// Whether this message is what the bytes of a document say.
    pub open spec fn decodes(&self, document: Seq<u8>) -> bool {
        parsed(document) matches Ok(e) && Self::refusal(e) is None && self.describes(e)
    }

    /// Why the bytes of a document are no message: why they are no element, or
    /// else why the element is no message of the catalog.
    pub open spec fn decode_refusal(document: Seq<u8>) -> Option<DecodeError> {
        match parsed(document) {
            Ok(e) => Self::refusal(e),
            Err(err) => Some(err),
        }
    }
}

impl Shown for IncomingMsg {
    /// The message as it is shown: as its kind is shown; a document of unknown
    /// kind as its map.
    open spec fn text(&self) -> Seq<char> {
        match self {
            IncomingMsg::DefSwitchVector(v) => v.text(),
            IncomingMsg::SetSwitchVector(v) => v.text(),
            IncomingMsg::DefTextVector(v) => v.text(),
            IncomingMsg::SetTextVector(v) => v.text(),
            IncomingMsg::DefNumberVector(v) => v.text(),
            IncomingMsg::SetNumberVector(v) => v.text(),
            IncomingMsg::DefLightVector(v) => v.text(),
            IncomingMsg::DefBlobVector(v) => v.text(),
            IncomingMsg::SetBlobVector(v) => v.text(),
            IncomingMsg::Message(v) => v.text(),
            IncomingMsg::DelProperty(v) => v.text(),
            IncomingMsg::GetProperties(v) => v.text(),
            IncomingMsg::EnableBLOB(v) => v.text(),
            IncomingMsg::Unparsed(m) => m.text(),
        }
    }

    fn to_text(&self) -> (r: String) {
        match self {
            IncomingMsg::DefSwitchVector(v) => v.to_text(),
            IncomingMsg::SetSwitchVector(v) => v.to_text(),
            IncomingMsg::DefTextVector(v) => v.to_text(),
            IncomingMsg::SetTextVector(v) => v.to_text(),
            IncomingMsg::DefNumberVector(v) => v.to_text(),
            IncomingMsg::SetNumberVector(v) => v.to_text(),
            IncomingMsg::DefLightVector(v) => v.to_text(),
            IncomingMsg::DefBlobVector(v) => v.to_text(),
            IncomingMsg::SetBlobVector(v) => v.to_text(),
            IncomingMsg::Message(v) => v.to_text(),
            IncomingMsg::DelProperty(v) => v.to_text(),
            IncomingMsg::GetProperties(v) => v.to_text(),
            IncomingMsg::EnableBLOB(v) => v.to_text(),
            IncomingMsg::Unparsed(m) => m.to_text(),
        }
    }
}

/// Decodes a complete document into a message of the catalog.
pub fn decode(document: &[u8]) -> (r: Result<IncomingMsg, DecodeError>)
    ensures
        match r {
            Ok(m) => m.decodes(document@),
            Err(err) => IncomingMsg::decode_refusal(document@) == Some(err),
        },
{
    let element = Element::parse(document)?;
    IncomingMsg::from_element(&element)
}

} // verus!
