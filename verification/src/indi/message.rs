//! Log lines that a device sends.

use crate::element::{DecodeError, Element, ElementView, NodeView, TextMap};
use crate::indi::common::{extra_text, show_extra, Shown};
use vstd::prelude::*;

verus! {

/// A line of free text from a device.
#[derive(Debug)]
pub struct Message {
    pub device: String,
    pub message: String,
    pub timestamp: String,
    /// The attributes that are no field of their own.
    pub extra: TextMap,
}

impl Message {
    /// The attributes that are fields.
    pub open spec fn known() -> Seq<&'static str> {
        seq!["device", "message", "timestamp"]
    }

    /// Whether the node lacks an attribute that a message must have.
    pub open spec fn lacks(node: NodeView) -> bool {
        ||| !node.has("device"@)
        ||| !node.has("message"@)
        ||| !node.has("timestamp"@)
    }

    /// Why the element is no message, or `None` where it is one: it is one
    /// exactly when it has a device, a text and a timestamp.
    pub open spec fn refusal(e: ElementView) -> Option<DecodeError> {
        if Self::lacks(e.root) {
            Some(DecodeError::MissingAttribute)
        } else {
            None
        }
    }

    /// Whether this value is what the element says.
    pub open spec fn describes(&self, e: ElementView) -> bool {
        &&& self.device@ == e.root.value("device"@)
        &&& self.message@ == e.root.value("message"@)
        &&& self.timestamp@ == e.root.value("timestamp"@)
        &&& self.extra@ == e.root.residual(Self::known())
    }

    fn known_names() -> (r: Vec<&'static str>)
        ensures
            r@ == Self::known(),
    {
        vec!["device", "message", "timestamp"]
    }

    /// Reads a message from its element.
    pub fn from_element(e: &Element) -> (r: Result<Self, DecodeError>)
        ensures
            match r {
                Ok(v) => Self::refusal(e@) is None && v.describes(e@),
                Err(err) => Self::refusal(e@) == Some(err),
            },
    {
        let root = &e.root;
        let device = root.required("device")?;
        let message = root.required("message")?;
        let timestamp = root.required("timestamp")?;
        let extra = root.residual(&Self::known_names());
        Ok(Message { device, message, timestamp, extra })
    }
}

impl Shown for Message {
    /// The message as it is shown: the device and, between quotation marks, the
    /// text; then the attributes that are no field, if there are any.
    open spec fn text(&self) -> Seq<char> {
        "📝 "@ + self.device@ + " \""@ + self.message@ + "\""@ + extra_text(self.extra)
    }

    fn to_text(&self) -> (r: String) {
        let mut out = String::new();
        out.append("📝 ");
        out.append(self.device.as_str());
        out.append(" \"");
        out.append(self.message.as_str());
        out.append("\"");
        show_extra(&mut out, &self.extra);
        proof {
            assert(out@ =~= self.text());
        }
        out
    }
}

} // verus!
