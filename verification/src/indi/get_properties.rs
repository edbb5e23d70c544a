//! The request for property definitions.

use crate::element::{
    attribute_map, attribute_pairs, Attribute, DecodeError, Element, ElementView, NodeView,
};
use crate::indi::common::Shown;
use crate::indi::connection::OutgoingMsg;
use crate::xml::{empty_element_xml, write_empty_element};
use vstd::prelude::*;

verus! {

/// Asks the server to define its properties. `version` is the version of the
/// protocol that the client speaks.
#[derive(Debug)]
pub struct GetProperties {
    pub version: String,
}

impl GetProperties {
    /// Whether the node lacks the version.
    pub open spec fn lacks(node: NodeView) -> bool {
        !node.has("version"@)
    }

    /// Why the element is no request for properties, or `None` where it is
    /// one: it is one exactly when it names a version.
    pub open spec fn refusal(e: ElementView) -> Option<DecodeError> {
        if Self::lacks(e.root) {
            Some(DecodeError::MissingAttribute)
        } else {
            None
        }
    }

    /// Whether this value is what the element says.
    pub open spec fn describes(&self, e: ElementView) -> bool {
        self.version@ == e.root.value("version"@)
    }

    /// The element that the request is written as.
    pub open spec fn element(&self) -> ElementView {
        ElementView {
            root: NodeView {
                name: "getProperties"@,
                attributes: seq![("version"@, self.version@)],
                text: Seq::empty(),
            },
            children: Seq::empty(),
        }
    }

    /// The request is read back from the element that it is written as, and
    /// its bytes are the bytes of that element.
    pub proof fn lemma_reads_back(&self)
        ensures
            Self::refusal(self.element()) is None,
            self.describes(self.element()),
            self.xml() == empty_element_xml(
                self.element().root.name,
                self.element().root.attributes,
            ),
    {
        let pairs = self.element().root.attributes;
        assert(pairs.drop_last() =~= Seq::empty());
        assert(attribute_map(pairs).contains_key("version"@));
    }

    /// Reads a request for properties from its element.
    pub fn from_element(e: &Element) -> (r: Result<Self, DecodeError>)
        ensures
            match r {
                Ok(v) => Self::refusal(e@) is None && v.describes(e@),
                Err(err) => Self::refusal(e@) == Some(err),
            },
    {
        let version = e.root.required("version")?;
        Ok(GetProperties { version })
    }
}

impl OutgoingMsg for GetProperties {
    /// `<getProperties version="..."/>`.
    open spec fn xml(&self) -> Seq<u8> {
        empty_element_xml("getProperties"@, seq![("version"@, self.version@)])
    }

    fn to_xml(&self) -> (r: Vec<u8>) {
        let mut attributes: Vec<Attribute> = Vec::new();
        attributes.push(
            Attribute { name: String::from_str("version"), value: self.version.clone() },
        );
        proof {
            assert(attribute_pairs(attributes@) =~= seq![("version"@, self.version@)]);
        }
        write_empty_element("getProperties", &attributes)
    }
}

impl Shown for GetProperties {
    /// The request as it is shown: its name and, between braces, its version.
    open spec fn text(&self) -> Seq<char> {
        "GetProperties { version: \""@ + self.version@ + "\" }"@
    }

    fn to_text(&self) -> (r: String) {
        let mut out = String::from_str("GetProperties { version: \"");
        out.append(self.version.as_str());
        out.append("\" }");
        out
    }
}

} // verus!
