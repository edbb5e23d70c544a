//! The command that turns the delivery of BLOBs on and off.

use crate::element::{
    attribute_map, attribute_pairs, Attribute, DecodeError, Element, ElementView, NodeView,
};
use crate::indi::common::Shown;
use crate::indi::connection::OutgoingMsg;
use crate::text::text_eq;
use crate::xml::{text_element_xml, write_text_element};
use vstd::prelude::*;

verus! {

/// Whether a connection carries BLOBs.
#[derive(Clone, Copy, Debug, PartialEq, Eq, Structural)]
pub enum EnableBLOBValue {
    /// No BLOBs on this connection.
    Never,
    /// Nothing but BLOBs on this connection.
    Only,
    /// BLOBs along with everything else.
    Also,
}

impl EnableBLOBValue {
    /// The name of the value on the wire.
    pub open spec fn text(self) -> Seq<char> {
        match self {
            EnableBLOBValue::Never => "Never"@,
            EnableBLOBValue::Only => "Only"@,
            EnableBLOBValue::Also => "Also"@,
        }
    }

    /// The value that a text names, if it names one.
    pub open spec fn of_text(text: Seq<char>) -> Option<EnableBLOBValue> {
        if text == "Never"@ {
            Some(EnableBLOBValue::Never)
        } else if text == "Only"@ {
            Some(EnableBLOBValue::Only)
        } else if text == "Also"@ {
            Some(EnableBLOBValue::Also)
        } else {
            None
        }
    }

    /// Reads a value from its name.
    pub fn from_text(text: &str) -> (r: Option<EnableBLOBValue>)
        ensures
            r == Self::of_text(text@),
    {
        if text_eq(text, "Never") {
            Some(EnableBLOBValue::Never)
        } else if text_eq(text, "Only") {
            Some(EnableBLOBValue::Only)
        } else if text_eq(text, "Also") {
            Some(EnableBLOBValue::Also)
        } else {
            None
        }
    }

    /// The name of the value on the wire.
    pub fn name(&self) -> (r: &'static str)
        ensures
            r@ == self.text(),
    {
        match self {
            EnableBLOBValue::Never => "Never",
            EnableBLOBValue::Only => "Only",
            EnableBLOBValue::Also => "Also",
        }
    }

    /// Every value is read back from its own name.
    pub proof fn lemma_name_reads_back(self)
        ensures
            Self::of_text(self.text()) == Some(self),
    {
        reveal_strlit("Never");
        reveal_strlit("Only");
        reveal_strlit("Also");
        assert("Never"@.len() == 5 && "Only"@.len() == 4 && "Also"@.len() == 4);
        assert("Only"@[0] == 'O' && "Also"@[0] == 'A');
    }
}

/// Turns the delivery of BLOBs on or off, for one device or, with no device
/// named, for all.
#[derive(Debug)]
pub struct EnableBLOB {
    pub device: Option<String>,
    pub value: EnableBLOBValue,
}

impl EnableBLOB {
    /// Why the element is no such command, or `None` where it is one: it is one
    /// exactly when its text is `Never`, `Only` or `Also`.
    pub open spec fn refusal(e: ElementView) -> Option<DecodeError> {
        if EnableBLOBValue::of_text(e.root.text) is None {
            Some(DecodeError::InvalidValue)
        } else {
            None
        }
    }

    /// Whether this value is what the element says.
    pub open spec fn describes(&self, e: ElementView) -> bool {
        &&& match self.device {
            Some(v) => e.root.attribute("device"@) == Some(v@),
            None => e.root.attribute("device"@) is None,
        }
        &&& Some(self.value) == EnableBLOBValue::of_text(e.root.text)
    }

    /// The attributes of the command: the device, where it names one.
    pub open spec fn attributes(&self) -> Seq<(Seq<char>, Seq<char>)> {
        match self.device {
            Some(d) => seq![("device"@, d@)],
            None => Seq::empty(),
        }
    }

    /// The element that the command is written as.
    pub open spec fn element(&self) -> ElementView {
        ElementView {
            root: NodeView {
                name: "enableBLOB"@,
                attributes: self.attributes(),
                text: self.value.text(),
            },
            children: Seq::empty(),
        }
    }

    /// The command is read back from the element that it is written as, and its
    /// bytes are the bytes of that element.
    pub proof fn lemma_reads_back(&self)
        ensures
            Self::refusal(self.element()) is None,
            self.describes(self.element()),
            self.xml() == text_element_xml(
                self.element().root.name,
                self.element().root.attributes,
                self.element().root.text,
            ),
    {
        self.value.lemma_name_reads_back();
        let pairs = self.attributes();
        match self.device {
            Some(d) => {
                assert(pairs.drop_last() =~= Seq::empty());
                assert(attribute_map(pairs).contains_key("device"@));
            },
            None => {},
        }
    }

    /// Reads the command from its element.
    pub fn from_element(e: &Element) -> (r: Result<Self, DecodeError>)
        ensures
            match r {
                Ok(v) => Self::refusal(e@) is None && v.describes(e@),
                Err(err) => Self::refusal(e@) == Some(err),
            },
    {
        let device = e.root.optional_value_of("device");
        match EnableBLOBValue::from_text(e.root.text.as_str()) {
            Some(value) => Ok(EnableBLOB { device, value }),
            None => Err(DecodeError::InvalidValue),
        }
    }
}

impl OutgoingMsg for EnableBLOB {
    /// `<enableBLOB>Never</enableBLOB>`, with the device as an attribute where
    /// one is named.
    open spec fn xml(&self) -> Seq<u8> {
        text_element_xml("enableBLOB"@, self.attributes(), self.value.text())
    }

    fn to_xml(&self) -> (r: Vec<u8>) {
        let mut attributes: Vec<Attribute> = Vec::new();
        match &self.device {
            Some(d) => {
                attributes.push(Attribute { name: String::from_str("device"), value: d.clone() });
            },
            None => {},
        }
        proof {
            assert(attribute_pairs(attributes@) =~= self.attributes());
        }
        write_text_element("enableBLOB", &attributes, self.value.name())
    }
}

impl Shown for EnableBLOB {
    /// The command as it is shown: its name and, between braces, its device
    /// and its value.
    open spec fn text(&self) -> Seq<char> {
        match self.device {
            Some(d) => "EnableBLOB { device: \""@ + d@ + "\", value: "@ + self.value.text()
                + " }"@,
            None => "EnableBLOB { value: "@ + self.value.text() + " }"@,
        }
    }

    fn to_text(&self) -> (r: String) {
        let mut out = String::new();
        match &self.device {
            Some(d) => {
                out.append("EnableBLOB { device: \"");
                out.append(d.as_str());
                out.append("\", value: ");
            },
            None => {
                out.append("EnableBLOB { value: ");
            },
        }
        out.append(self.value.name());
        out.append(" }");
        proof {
            assert(out@ =~= self.text());
        }
        out
    }
}

} // verus!
