//! Text vectors: their definition and their update.

use crate::element::{DecodeError, Element, ElementView, Node, NodeView, TextMap};
use crate::indi::common::{
    all_described, children_named, decode_children, extra_text, first_refusal, lines_text,
    show_extra, show_lines, FromNode, IndiPermission, IndiState, Shown,
};
use vstd::prelude::*;

verus! {

/// One text of a definition.
#[derive(Debug)]
pub struct DefTextValue {
    pub name: String,
    pub label: String,
    pub value: String,
    /// The attributes that are no field of their own.
    pub extra: TextMap,
}

impl DefTextValue {
    /// The attributes that are fields.
    pub open spec fn known() -> Seq<&'static str> {
        seq!["name", "label"]
    }

    /// Whether the node lacks an attribute that a text must have.
    pub open spec fn lacks(node: NodeView) -> bool {
        !node.has("name"@) || !node.has("label"@)
    }

    fn known_names() -> (r: Vec<&'static str>)
        ensures
            r@ == Self::known(),
    {
        vec!["name", "label"]
    }
}

impl FromNode for DefTextValue {
    open spec fn refusal(node: NodeView) -> Option<DecodeError> {
        if Self::lacks(node) {
            Some(DecodeError::MissingAttribute)
        } else {
            None
        }
    }

    open spec fn describes(&self, node: NodeView) -> bool {
        &&& self.name@ == node.value("name"@)
        &&& self.label@ == node.value("label"@)
        &&& self.value@ == node.text
        &&& self.extra@ == node.residual(Self::known())
    }

    fn from_node(node: &Node) -> (r: Result<Self, DecodeError>) {
        let name = node.required("name")?;
        let label = node.required("label")?;
        let value = node.text.clone();
        let extra = node.residual(&Self::known_names());
        Ok(DefTextValue { name, label, value, extra })
    }
}

impl Shown for DefTextValue {
    /// The text as it is shown: its name, an equals sign, its value.
    open spec fn text(&self) -> Seq<char> {
        self.name@ + " = "@ + self.value@
    }

    fn to_text(&self) -> (r: String) {
        let mut out = String::new();
        out.append(self.name.as_str());
        out.append(" = ");
        out.append(self.value.as_str());
        proof {
            assert(out@ =~= self.text());
        }
        out
    }
}

/// The definition of a text vector.
#[derive(Debug)]
pub struct DefTextVector {
    pub name: String,
    pub label: String,
    pub group: String,
    pub state: IndiState,
    pub device: String,
    pub perm: IndiPermission,
    /// The timeout in seconds, as the wire writes it.
    pub timeout: String,
    pub timestamp: String,
    pub texts: Vec<DefTextValue>,
    /// The attributes that are no field of their own.
    pub extra: TextMap,
}

impl DefTextVector {
    /// The attributes that are fields.
    pub open spec fn known() -> Seq<&'static str> {
        seq!["name", "label", "group", "state", "device", "perm", "timeout", "timestamp"]
    }

    /// Whether the node lacks an attribute that the vector must have.
    pub open spec fn lacks(node: NodeView) -> bool {
        ||| !node.has("name"@)
        ||| !node.has("label"@)
        ||| !node.has("group"@)
        ||| !node.has("state"@)
        ||| !node.has("device"@)
        ||| !node.has("perm"@)
        ||| !node.has("timeout"@)
        ||| !node.has("timestamp"@)
    }

    /// Why the element is no definition of a text vector, or `None` where it is
    /// one: an attribute is missing; or state or permission is not one of their
    /// names; or a `defText` child is no text.
    pub open spec fn refusal(e: ElementView) -> Option<DecodeError> {
        if Self::lacks(e.root) {
            Some(DecodeError::MissingAttribute)
        } else if IndiState::of_text(e.root.value("state"@)) is None
            || IndiPermission::of_text(e.root.value("perm"@)) is None {
            Some(DecodeError::InvalidValue)
        } else {
            first_refusal::<DefTextValue>(children_named(e.children, "defText"@))
        }
    }

    /// Whether this value is what the element says.
    pub open spec fn describes(&self, e: ElementView) -> bool {
        &&& self.name@ == e.root.value("name"@)
        &&& self.label@ == e.root.value("label"@)
        &&& self.group@ == e.root.value("group"@)
        &&& Some(self.state) == IndiState::of_text(e.root.value("state"@))
        &&& self.device@ == e.root.value("device"@)
        &&& Some(self.perm) == IndiPermission::of_text(e.root.value("perm"@))
        &&& self.timeout@ == e.root.value("timeout"@)
        &&& self.timestamp@ == e.root.value("timestamp"@)
        &&& all_described(self.texts@, children_named(e.children, "defText"@))
        &&& self.extra@ == e.root.residual(Self::known())
    }

    fn known_names() -> (r: Vec<&'static str>)
        ensures
            r@ == Self::known(),
    {
        vec!["name", "label", "group", "state", "device", "perm", "timeout", "timestamp"]
    }

    /// Reads the definition of a text vector from its element.
    pub fn from_element(e: &Element) -> (r: Result<Self, DecodeError>)
        ensures
            match r {
                Ok(v) => Self::refusal(e@) is None && v.describes(e@),
                Err(err) => Self::refusal(e@) == Some(err),
            },
    {
        let root = &e.root;
        let name = root.required("name")?;
        let label = root.required("label")?;
        let group = root.required("group")?;
        let state_text = root.required("state")?;
        let device = root.required("device")?;
        let perm_text = root.required("perm")?;
        let timeout = root.required("timeout")?;
        let timestamp = root.required("timestamp")?;
        let state = IndiState::from_text(state_text.as_str());
        let perm = IndiPermission::from_text(perm_text.as_str());
        match (state, perm) {
            (Some(state), Some(perm)) => {
                let texts = decode_children::<DefTextValue>(&e.children, "defText")?;
                let extra = root.residual(&Self::known_names());
                Ok(DefTextVector {
                    name,
                    label,
                    group,
                    state,
                    device,
                    perm,
                    timeout,
                    timestamp,
                    texts,
                    extra,
                })
            },
            _ => Err(DecodeError::InvalidValue),
        }
    }
}

impl Shown for DefTextVector {
    /// The vector as it is shown: a line with the sign of its state, its device
    /// and its name, then a line for each text, then the attributes that are
    /// no field, if there are any.
    open spec fn text(&self) -> Seq<char> {
        self.state.sign() + " "@ + self.device@ + "::"@ + self.name@ + "(text)\n"@
            + lines_text(self.texts@) + extra_text(self.extra)
    }

    fn to_text(&self) -> (r: String) {
        let mut out = String::new();
        out.append(self.state.symbol());
        out.append(" ");
        out.append(self.device.as_str());
        out.append("::");
        out.append(self.name.as_str());
        out.append("(text)\n");
        show_lines(&mut out, &self.texts);
        show_extra(&mut out, &self.extra);
        proof {
            assert(out@ =~= self.text());
        }
        out
    }
}

/// One text of an update.
#[derive(Debug)]
pub struct SetTextValue {
    pub name: String,
    pub value: String,
    /// The attributes that are no field of their own.
    pub extra: TextMap,
}

impl SetTextValue {
    /// The attributes that are fields.
    pub open spec fn known() -> Seq<&'static str> {
        seq!["name"]
    }

    /// Whether the node lacks an attribute that a text must have.
    pub open spec fn lacks(node: NodeView) -> bool {
        !node.has("name"@)
    }

    fn known_names() -> (r: Vec<&'static str>)
        ensures
            r@ == Self::known(),
    {
        vec!["name"]
    }
}

impl FromNode for SetTextValue {
    open spec fn refusal(node: NodeView) -> Option<DecodeError> {
        if Self::lacks(node) {
            Some(DecodeError::MissingAttribute)
        } else {
            None
        }
    }

    open spec fn describes(&self, node: NodeView) -> bool {
        &&& self.name@ == node.value("name"@)
        &&& self.value@ == node.text
        &&& self.extra@ == node.residual(Self::known())
    }

    fn from_node(node: &Node) -> (r: Result<Self, DecodeError>) {
        let name = node.required("name")?;
        let value = node.text.clone();
        let extra = node.residual(&Self::known_names());
        Ok(SetTextValue { name, value, extra })
    }
}

impl Shown for SetTextValue {
    /// The text as it is shown: its name, an equals sign, its value.
    open spec fn text(&self) -> Seq<char> {
        self.name@ + " = "@ + self.value@
    }

    fn to_text(&self) -> (r: String) {
        let mut out = String::new();
        out.append(self.name.as_str());
        out.append(" = ");
        out.append(self.value.as_str());
        proof {
            assert(out@ =~= self.text());
        }
        out
    }
}

/// The update of a text vector.
#[derive(Debug)]
pub struct SetTextVector {
    pub name: String,
    pub state: IndiState,
    pub device: String,
    /// The timeout in seconds, as the wire writes it.
    pub timeout: String,
    pub timestamp: String,
    pub texts: Vec<SetTextValue>,
    /// The attributes that are no field of their own.
    pub extra: TextMap,
}

impl SetTextVector {
    /// The attributes that are fields.
    pub open spec fn known() -> Seq<&'static str> {
        seq!["name", "state", "device", "timeout", "timestamp"]
    }

    /// Whether the node lacks an attribute that the vector must have.
    pub open spec fn lacks(node: NodeView) -> bool {
        ||| !node.has("name"@)
        ||| !node.has("state"@)
        ||| !node.has("device"@)
        ||| !node.has("timeout"@)
        ||| !node.has("timestamp"@)
    }

    /// Why the element is no update of a text vector, or `None` where it is
    /// one: an attribute is missing; or the state is not one of its names; or a
    /// `oneText` child is no text.
    pub open spec fn refusal(e: ElementView) -> Option<DecodeError> {
        if Self::lacks(e.root) {
            Some(DecodeError::MissingAttribute)
        } else if IndiState::of_text(e.root.value("state"@)) is None {
            Some(DecodeError::InvalidValue)
        } else {
            first_refusal::<SetTextValue>(children_named(e.children, "oneText"@))
        }
    }

    /// Whether this value is what the element says.
    pub open spec fn describes(&self, e: ElementView) -> bool {
        &&& self.name@ == e.root.value("name"@)
        &&& Some(self.state) == IndiState::of_text(e.root.value("state"@))
        &&& self.device@ == e.root.value("device"@)
        &&& self.timeout@ == e.root.value("timeout"@)
        &&& self.timestamp@ == e.root.value("timestamp"@)
        &&& all_described(self.texts@, children_named(e.children, "oneText"@))
        &&& self.extra@ == e.root.residual(Self::known())
    }

    fn known_names() -> (r: Vec<&'static str>)
        ensures
            r@ == Self::known(),
    {
        vec!["name", "state", "device", "timeout", "timestamp"]
    }

    /// Reads the update of a text vector from its element.
    pub fn from_element(e: &Element) -> (r: Result<Self, DecodeError>)
        ensures
            match r {
                Ok(v) => Self::refusal(e@) is None && v.describes(e@),
                Err(err) => Self::refusal(e@) == Some(err),
            },
    {
        let root = &e.root;
        let name = root.required("name")?;
        let state_text = root.required("state")?;
        let device = root.required("device")?;
        let timeout = root.required("timeout")?;
        let timestamp = root.required("timestamp")?;
        let state = IndiState::from_text(state_text.as_str());
        match state {
            Some(state) => {
                let texts = decode_children::<SetTextValue>(&e.children, "oneText")?;
                let extra = root.residual(&Self::known_names());
                Ok(SetTextVector {
                    name,
                    state,
                    device,
                    timeout,
                    timestamp,
                    texts,
                    extra,
                })
            },
            _ => Err(DecodeError::InvalidValue),
        }
    }
}

impl Shown for SetTextVector {
    /// The vector as it is shown: a line with the sign of its state, its device
    /// and its name, then a line for each text, then the attributes that are
    /// no field, if there are any.
    open spec fn text(&self) -> Seq<char> {
        self.state.sign() + " "@ + self.device@ + "::"@ + self.name@ + "(text)\n"@
            + lines_text(self.texts@) + extra_text(self.extra)
    }

    fn to_text(&self) -> (r: String) {
        let mut out = String::new();
        out.append(self.state.symbol());
        out.append(" ");
        out.append(self.device.as_str());
        out.append("::");
        out.append(self.name.as_str());
        out.append("(text)\n");
        show_lines(&mut out, &self.texts);
        show_extra(&mut out, &self.extra);
        proof {
            assert(out@ =~= self.text());
        }
        out
    }
}

} // verus!
