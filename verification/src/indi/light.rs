//! Light vectors. A light is read-only, so it has a definition and no
//! permission.

use crate::element::{DecodeError, Element, ElementView, Node, NodeView, TextMap};
use crate::indi::common::{
    all_described, children_named, decode_children, extra_text, first_refusal, lines_text,
    show_extra, show_lines, FromNode, IndiState, Shown,
};
use vstd::prelude::*;

verus! {

/// One light of a definition.
#[derive(Debug)]
pub struct DefLightValue {
    pub name: String,
    pub label: String,
    pub value: IndiState,
    /// The attributes that are no field of their own.
    pub extra: TextMap,
}

impl DefLightValue {
    /// The attributes that are fields.
    pub open spec fn known() -> Seq<&'static str> {
        seq!["name", "label"]
    }

    /// Whether the node lacks an attribute that a light must have.
    pub open spec fn lacks(node: NodeView) -> bool {
        !node.has("name"@) || !node.has("label"@)
    }

    fn known_names() -> (r: Vec<&'static str>)
        ensures
            r@ == Self::known(),
    {
        vec!["name", "label"]
    }
}

impl FromNode for DefLightValue {
    open spec fn refusal(node: NodeView) -> Option<DecodeError> {
        if Self::lacks(node) {
            Some(DecodeError::MissingAttribute)
        } else if IndiState::of_text(node.text) is None {
            Some(DecodeError::InvalidValue)
        } else {
            None
        }
    }

    open spec fn describes(&self, node: NodeView) -> bool {
        &&& self.name@ == node.value("name"@)
        &&& self.label@ == node.value("label"@)
        &&& Some(self.value) == IndiState::of_text(node.text)
        &&& self.extra@ == node.residual(Self::known())
    }

    fn from_node(node: &Node) -> (r: Result<Self, DecodeError>) {
        let name = node.required("name")?;
        let label = node.required("label")?;
        let value = IndiState::from_text(node.text.as_str());
        match value {
            Some(value) => {
                let extra = node.residual(&Self::known_names());
                Ok(DefLightValue { name, label, value, extra })
            },
            _ => Err(DecodeError::InvalidValue),
        }
    }
}

impl Shown for DefLightValue {
    /// The light as it is shown: the sign of its state, then its name.
    open spec fn text(&self) -> Seq<char> {
        self.value.sign() + " "@ + self.name@
    }

    fn to_text(&self) -> (r: String) {
        let mut out = String::new();
        out.append(self.value.symbol());
        out.append(" ");
        out.append(self.name.as_str());
        proof {
            assert(out@ =~= self.text());
        }
        out
    }
}

/// The definition of a light vector.
#[derive(Debug)]
pub struct DefLightVector {
    pub name: String,
    pub label: String,
    pub group: String,
    pub state: IndiState,
    pub device: String,
    pub timestamp: String,
    pub lights: Vec<DefLightValue>,
    /// The attributes that are no field of their own.
    pub extra: TextMap,
}

impl DefLightVector {
    /// The attributes that are fields.
    pub open spec fn known() -> Seq<&'static str> {
        seq!["name", "label", "group", "state", "device", "timestamp"]
    }

    /// Whether the node lacks an attribute that the vector must have.
    pub open spec fn lacks(node: NodeView) -> bool {
        ||| !node.has("name"@)
        ||| !node.has("label"@)
        ||| !node.has("group"@)
        ||| !node.has("state"@)
        ||| !node.has("device"@)
        ||| !node.has("timestamp"@)
    }

    /// Why the element is no definition of a light vector, or `None` where it
    /// is one: an attribute is missing; or the state is not one of its names;
    /// or a `defLight` child is no light.
    pub open spec fn refusal(e: ElementView) -> Option<DecodeError> {
        if Self::lacks(e.root) {
            Some(DecodeError::MissingAttribute)
        } else if IndiState::of_text(e.root.value("state"@)) is None {
            Some(DecodeError::InvalidValue)
        } else {
            first_refusal::<DefLightValue>(children_named(e.children, "defLight"@))
        }
    }

    /// Whether this value is what the element says.
    pub open spec fn describes(&self, e: ElementView) -> bool {
        &&& self.name@ == e.root.value("name"@)
        &&& self.label@ == e.root.value("label"@)
        &&& self.group@ == e.root.value("group"@)
        &&& Some(self.state) == IndiState::of_text(e.root.value("state"@))
        &&& self.device@ == e.root.value("device"@)
        &&& self.timestamp@ == e.root.value("timestamp"@)
        &&& all_described(self.lights@, children_named(e.children, "defLight"@))
        &&& self.extra@ == e.root.residual(Self::known())
    }

    fn known_names() -> (r: Vec<&'static str>)
        ensures
            r@ == Self::known(),
    {
        vec!["name", "label", "group", "state", "device", "timestamp"]
    }

    /// Reads the definition of a light vector from its element.
    pub fn from_element(e: &Element) -> (r: Result<Self, DecodeError>)
        ensures
            match r {
                Ok(v) => Self::refusal(e@) is None && v.describes(e@),
                Err(err) => Self::refusal(e@) == Some(err),
            },
    {
        let root = &e.root;
        let name = root.required("name")?;
        let label = root.required("label")?;
        let group = root.required("group")?;
        let state_text = root.required("state")?;
        let device = root.required("device")?;
        let timestamp = root.required("timestamp")?;
        let state = IndiState::from_text(state_text.as_str());
        match state {
            Some(state) => {
                let lights = decode_children::<DefLightValue>(&e.children, "defLight")?;
                let extra = root.residual(&Self::known_names());
                Ok(DefLightVector {
                    name,
                    label,
                    group,
                    state,
                    device,
                    timestamp,
                    lights,
                    extra,
                })
            },
            _ => Err(DecodeError::InvalidValue),
        }
    }
}

impl Shown for DefLightVector {
    /// The vector as it is shown: a line with the sign of its state, its device
    /// and its name, then a line for each light, then the attributes that are
    /// no field, if there are any.
    open spec fn text(&self) -> Seq<char> {
        self.state.sign() + " "@ + self.device@ + "::"@ + self.name@ + "(Light)\n"@
            + lines_text(self.lights@) + extra_text(self.extra)
    }

    fn to_text(&self) -> (r: String) {
        let mut out = String::new();
        out.append(self.state.symbol());
        out.append(" ");
        out.append(self.device.as_str());
        out.append("::");
        out.append(self.name.as_str());
        out.append("(Light)\n");
        show_lines(&mut out, &self.lights);
        show_extra(&mut out, &self.extra);
        proof {
            assert(out@ =~= self.text());
        }
        out
    }
}

} // verus!
