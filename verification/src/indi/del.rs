//! Removal of a property vector or of a whole device.

use crate::element::{DecodeError, Element, ElementView, NodeView, TextMap};
use crate::indi::common::{extra_text, show_extra, Shown};
use vstd::prelude::*;

verus! {

/// Removes the vector `name` of a device, or the whole device where no name is
/// given.
#[derive(Debug)]
pub struct DelProperty {
    pub device: String,
    pub name: Option<String>,
    pub timestamp: Option<String>,
    /// The attributes that are no field of their own.
    pub extra: TextMap,
}

impl DelProperty {
    /// The attributes that are fields.
    pub open spec fn known() -> Seq<&'static str> {
        seq!["device", "name", "timestamp"]
    }

    /// Whether the node lacks an attribute that a removal must have.
    pub open spec fn lacks(node: NodeView) -> bool {
        !node.has("device"@)
    }

    /// Why the element is no removal, or `None` where it is one: it is one
    /// exactly when it names a device.
    pub open spec fn refusal(e: ElementView) -> Option<DecodeError> {
        if Self::lacks(e.root) {
            Some(DecodeError::MissingAttribute)
        } else {
            None
        }
    }

    /// Whether this value is what the element says.
    pub open spec fn describes(&self, e: ElementView) -> bool {
        &&& self.device@ == e.root.value("device"@)
        &&& match self.name {
            Some(v) => e.root.attribute("name"@) == Some(v@),
            None => e.root.attribute("name"@) is None,
        }
        &&& match self.timestamp {
            Some(v) => e.root.attribute("timestamp"@) == Some(v@),
            None => e.root.attribute("timestamp"@) is None,
        }
        &&& self.extra@ == e.root.residual(Self::known())
    }

    fn known_names() -> (r: Vec<&'static str>)
        ensures
            r@ == Self::known(),
    {
        vec!["device", "name", "timestamp"]
    }

    /// Reads a removal from its element.
    pub fn from_element(e: &Element) -> (r: Result<Self, DecodeError>)
        ensures
            match r {
                Ok(v) => Self::refusal(e@) is None && v.describes(e@),
                Err(err) => Self::refusal(e@) == Some(err),
            },
    {
        let root = &e.root;
        let device = root.required("device")?;
        let name = root.optional_value_of("name");
        let timestamp = root.optional_value_of("timestamp");
        let extra = root.residual(&Self::known_names());
        Ok(DelProperty { device, name, timestamp, extra })
    }
}

impl Shown for DelProperty {
    /// The removal as it is shown: the device and the vector that goes, or the
    /// device alone where all of it goes; then the attributes that are no
    /// field, if there are any.
    open spec fn text(&self) -> Seq<char> {
        match self.name {
            Some(name) => "⛔ "@ + self.device@ + "::"@ + name@ + " (vector)\n"@ + extra_text(
                self.extra,
            ),
            None => "⛔ "@ + self.device@ + " (device)\n"@ + extra_text(self.extra),
        }
    }

    fn to_text(&self) -> (r: String) {
        let mut out = String::new();
        out.append("⛔ ");
        out.append(self.device.as_str());
        match &self.name {
            Some(name) => {
                out.append("::");
                out.append(name.as_str());
                out.append(" (vector)\n");
            },
            None => {
                out.append(" (device)\n");
            },
        }
        show_extra(&mut out, &self.extra);
        proof {
            assert(out@ =~= self.text());
        }
        out
    }
}

} // verus!
