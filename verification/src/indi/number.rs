//! Number vectors: their definition and their update.

use crate::element::{DecodeError, Element, ElementView, Node, NodeView, TextMap};
use crate::indi::common::{
    all_described, children_named, decode_children, extra_text, first_refusal, lines_text,
    show_extra, show_lines, FromNode, IndiPermission, IndiState, Shown,
};
use vstd::prelude::*;

verus! {

/// One number of a definition. The number itself, its bounds and its step are
/// kept as the wire writes them.
#[derive(Debug)]
pub struct DefNumberValue {
    pub name: String,
    pub label: String,
    pub format: String,
    pub min: String,
    pub max: String,
    pub step: String,
    pub value: String,
    /// The attributes that are no field of their own.
    pub extra: TextMap,
}

impl DefNumberValue {
    /// The attributes that are fields.
    pub open spec fn known() -> Seq<&'static str> {
        seq!["name", "label", "format", "min", "max", "step"]
    }

    /// Whether the node lacks an attribute that a number must have.
    pub open spec fn lacks(node: NodeView) -> bool {
        ||| !node.has("name"@)
        ||| !node.has("label"@)
        ||| !node.has("format"@)
        ||| !node.has("min"@)
        ||| !node.has("max"@)
        ||| !node.has("step"@)
    }

    fn known_names() -> (r: Vec<&'static str>)
        ensures
            r@ == Self::known(),
    {
        vec!["name", "label", "format", "min", "max", "step"]
    }
}

impl FromNode for DefNumberValue {
    open spec fn refusal(node: NodeView) -> Option<DecodeError> {
        if Self::lacks(node) {
            Some(DecodeError::MissingAttribute)
        } else {
            None
        }
    }

    open spec fn describes(&self, node: NodeView) -> bool {
        &&& self.name@ == node.value("name"@)
        &&& self.label@ == node.value("label"@)
        &&& self.format@ == node.value("format"@)
        &&& self.min@ == node.value("min"@)
        &&& self.max@ == node.value("max"@)
        &&& self.step@ == node.value("step"@)
        &&& self.value@ == node.text
        &&& self.extra@ == node.residual(Self::known())
    }

    fn from_node(node: &Node) -> (r: Result<Self, DecodeError>) {
        let name = node.required("name")?;
        let label = node.required("label")?;
        let format = node.required("format")?;
        let min = node.required("min")?;
        let max = node.required("max")?;
        let step = node.required("step")?;
        let value = node.text.clone();
        let extra = node.residual(&Self::known_names());
        Ok(DefNumberValue { name, label, format, min, max, step, value, extra })
    }
}

impl Shown for DefNumberValue {
    /// The number as it is shown: its name and value, then its bounds, its step
    /// and its format.
    open spec fn text(&self) -> Seq<char> {
        self.name@ + " = "@ + self.value@ + " | ["@ + self.min@ + ", "@ + self.max@
            + "], Δ"@ + self.step@ + ", "@ + self.format@
    }

    fn to_text(&self) -> (r: String) {
        let mut out = String::new();
        out.append(self.name.as_str());
        out.append(" = ");
        out.append(self.value.as_str());
        out.append(" | [");
        out.append(self.min.as_str());
        out.append(", ");
        out.append(self.max.as_str());
        out.append("], Δ");
        out.append(self.step.as_str());
        out.append(", ");
        out.append(self.format.as_str());
        proof {
            assert(out@ =~= self.text());
        }
        out
    }
}

/// The definition of a number vector.
#[derive(Debug)]
pub struct DefNumberVector {
    pub name: String,
    pub label: String,
    pub group: String,
    pub state: IndiState,
    pub device: String,
    pub perm: IndiPermission,
    /// The timeout in seconds, as the wire writes it.
    pub timeout: String,
    pub timestamp: String,
    pub numbers: Vec<DefNumberValue>,
    /// The attributes that are no field of their own.
    pub extra: TextMap,
}

impl DefNumberVector {
    /// The attributes that are fields.
    pub open spec fn known() -> Seq<&'static str> {
        seq!["name", "label", "group", "state", "device", "perm", "timeout", "timestamp"]
    }

    /// Whether the node lacks an attribute that the vector must have.
    pub open spec fn lacks(node: NodeView) -> bool {
        ||| !node.has("name"@)
        ||| !node.has("label"@)
        ||| !node.has("group"@)
        ||| !node.has("state"@)
        ||| !node.has("device"@)
        ||| !node.has("perm"@)
        ||| !node.has("timeout"@)
        ||| !node.has("timestamp"@)
    }

    /// Why the element is no definition of a number vector, or `None` where it
    /// is one: an attribute is missing; or state or permission is not one of
    /// their names; or a `defNumber` child is no number.
    pub open spec fn refusal(e: ElementView) -> Option<DecodeError> {
        if Self::lacks(e.root) {
            Some(DecodeError::MissingAttribute)
        } else if IndiState::of_text(e.root.value("state"@)) is None
            || IndiPermission::of_text(e.root.value("perm"@)) is None {
            Some(DecodeError::InvalidValue)
        } else {
            first_refusal::<DefNumberValue>(children_named(e.children, "defNumber"@))
        }
    }

    /// Whether this value is what the element says.
    pub open spec fn describes(&self, e: ElementView) -> bool {
        &&& self.name@ == e.root.value("name"@)
        &&& self.label@ == e.root.value("label"@)
        &&& self.group@ == e.root.value("group"@)
        &&& Some(self.state) == IndiState::of_text(e.root.value("state"@))
        &&& self.device@ == e.root.value("device"@)
        &&& Some(self.perm) == IndiPermission::of_text(e.root.value("perm"@))
        &&& self.timeout@ == e.root.value("timeout"@)
        &&& self.timestamp@ == e.root.value("timestamp"@)
        &&& all_described(self.numbers@, children_named(e.children, "defNumber"@))
        &&& self.extra@ == e.root.residual(Self::known())
    }

    fn known_names() -> (r: Vec<&'static str>)
        ensures
            r@ == Self::known(),
    {
        vec!["name", "label", "group", "state", "device", "perm", "timeout", "timestamp"]
    }

    /// Reads the definition of a number vector from its element.
    pub fn from_element(e: &Element) -> (r: Result<Self, DecodeError>)
        ensures
            match r {
                Ok(v) => Self::refusal(e@) is None && v.describes(e@),
                Err(err) => Self::refusal(e@) == Some(err),
            },
    {
        let root = &e.root;
        let name = root.required("name")?;
        let label = root.required("label")?;
        let group = root.required("group")?;
        let state_text = root.required("state")?;
        let device = root.required("device")?;
        let perm_text = root.required("perm")?;
        let timeout = root.required("timeout")?;
        let timestamp = root.required("timestamp")?;
        let state = IndiState::from_text(state_text.as_str());
        let perm = IndiPermission::from_text(perm_text.as_str());
        match (state, perm) {
            (Some(state), Some(perm)) => {
                let numbers = decode_children::<DefNumberValue>(&e.children, "defNumber")?;
                let extra = root.residual(&Self::known_names());
                Ok(DefNumberVector {
                    name,
                    label,
                    group,
                    state,
                    device,
                    perm,
                    timeout,
                    timestamp,
                    numbers,
                    extra,
                })
            },
            _ => Err(DecodeError::InvalidValue),
        }
    }
}

impl Shown for DefNumberVector {
    /// The vector as it is shown: a line with the sign of its state, its device
    /// and its name, then a line for each number, then the attributes that are
    /// no field, if there are any.
    open spec fn text(&self) -> Seq<char> {
        self.state.sign() + " "@ + self.device@ + "::"@ + self.name@ + "(numbers)\n"@
            + lines_text(self.numbers@) + extra_text(self.extra)
    }

    fn to_text(&self) -> (r: String) {
        let mut out = String::new();
        out.append(self.state.symbol());
        out.append(" ");
        out.append(self.device.as_str());
        out.append("::");
        out.append(self.name.as_str());
        out.append("(numbers)\n");
        show_lines(&mut out, &self.numbers);
        show_extra(&mut out, &self.extra);
        proof {
            assert(out@ =~= self.text());
        }
        out
    }
}

/// One number of an update, as the wire writes it.
#[derive(Debug)]
pub struct SetNumberValue {
    pub name: String,
    pub value: String,
    /// The attributes that are no field of their own.
    pub extra: TextMap,
}

impl SetNumberValue {
    /// The attributes that are fields.
    pub open spec fn known() -> Seq<&'static str> {
        seq!["name"]
    }

    /// Whether the node lacks an attribute that a number must have.
    pub open spec fn lacks(node: NodeView) -> bool {
        !node.has("name"@)
    }

    fn known_names() -> (r: Vec<&'static str>)
        ensures
            r@ == Self::known(),
    {
        vec!["name"]
    }
}

impl FromNode for SetNumberValue {
    open spec fn refusal(node: NodeView) -> Option<DecodeError> {
        if Self::lacks(node) {
            Some(DecodeError::MissingAttribute)
        } else {
            None
        }
    }

    open spec fn describes(&self, node: NodeView) -> bool {
        &&& self.name@ == node.value("name"@)
        &&& self.value@ == node.text
        &&& self.extra@ == node.residual(Self::known())
    }

    fn from_node(node: &Node) -> (r: Result<Self, DecodeError>) {
        let name = node.required("name")?;
        let value = node.text.clone();
        let extra = node.residual(&Self::known_names());
        Ok(SetNumberValue { name, value, extra })
    }
}

impl Shown for SetNumberValue {
    /// The number as it is shown: its name, an equals sign, its value.
    open spec fn text(&self) -> Seq<char> {
        self.name@ + " = "@ + self.value@
    }

    fn to_text(&self) -> (r: String) {
        let mut out = String::new();
        out.append(self.name.as_str());
        out.append(" = ");
        out.append(self.value.as_str());
        proof {
            assert(out@ =~= self.text());
        }
        out
    }
}

/// The update of a number vector.
#[derive(Debug)]
pub struct SetNumberVector {
    pub name: String,
    pub state: IndiState,
    pub device: String,
    /// The timeout in seconds, as the wire writes it.
    pub timeout: String,
    pub timestamp: String,
    pub numbers: Vec<SetNumberValue>,
    /// The attributes that are no field of their own.
    pub extra: TextMap,
}

impl SetNumberVector {
    /// The attributes that are fields.
    pub open spec fn known() -> Seq<&'static str> {
        seq!["name", "state", "device", "timeout", "timestamp"]
    }

    /// Whether the node lacks an attribute that the vector must have.
    pub open spec fn lacks(node: NodeView) -> bool {
        ||| !node.has("name"@)
        ||| !node.has("state"@)
        ||| !node.has("device"@)
        ||| !node.has("timeout"@)
        ||| !node.has("timestamp"@)
    }

    /// Why the element is no update of a number vector, or `None` where it is
    /// one: an attribute is missing; or the state is not one of its names; or a
    /// `oneNumber` child is no number.
    pub open spec fn refusal(e: ElementView) -> Option<DecodeError> {
        if Self::lacks(e.root) {
            Some(DecodeError::MissingAttribute)
        } else if IndiState::of_text(e.root.value("state"@)) is None {
            Some(DecodeError::InvalidValue)
        } else {
            first_refusal::<SetNumberValue>(children_named(e.children, "oneNumber"@))
        }
    }

    /// Whether this value is what the element says.
    pub open spec fn describes(&self, e: ElementView) -> bool {
        &&& self.name@ == e.root.value("name"@)
        &&& Some(self.state) == IndiState::of_text(e.root.value("state"@))
        &&& self.device@ == e.root.value("device"@)
        &&& self.timeout@ == e.root.value("timeout"@)
        &&& self.timestamp@ == e.root.value("timestamp"@)
        &&& all_described(self.numbers@, children_named(e.children, "oneNumber"@))
        &&& self.extra@ == e.root.residual(Self::known())
    }

    fn known_names() -> (r: Vec<&'static str>)
        ensures
            r@ == Self::known(),
    {
        vec!["name", "state", "device", "timeout", "timestamp"]
    }

    /// Reads the update of a number vector from its element.
    pub fn from_element(e: &Element) -> (r: Result<Self, DecodeError>)
        ensures
            match r {
                Ok(v) => Self::refusal(e@) is None && v.describes(e@),
                Err(err) => Self::refusal(e@) == Some(err),
            },
    {
        let root = &e.root;
        let name = root.required("name")?;
        let state_text = root.required("state")?;
        let device = root.required("device")?;
        let timeout = root.required("timeout")?;
        let timestamp = root.required("timestamp")?;
        let state = IndiState::from_text(state_text.as_str());
        match state {
            Some(state) => {
                let numbers = decode_children::<SetNumberValue>(&e.children, "oneNumber")?;
                let extra = root.residual(&Self::known_names());
                Ok(SetNumberVector {
                    name,
                    state,
                    device,
                    timeout,
                    timestamp,
                    numbers,
                    extra,
                })
            },
            _ => Err(DecodeError::InvalidValue),
        }
    }
}

impl Shown for SetNumberVector {
    /// The vector as it is shown: a line with the sign of its state, its device
    /// and its name, then a line for each number, then the attributes that are
    /// no field, if there are any.
    open spec fn text(&self) -> Seq<char> {
        self.state.sign() + " "@ + self.device@ + "::"@ + self.name@ + "(text)\n"@
            + lines_text(self.numbers@) + extra_text(self.extra)
    }

    fn to_text(&self) -> (r: String) {
        let mut out = String::new();
        out.append(self.state.symbol());
        out.append(" ");
        out.append(self.device.as_str());
        out.append("::");
        out.append(self.name.as_str());
        out.append("(text)\n");
        show_lines(&mut out, &self.numbers);
        show_extra(&mut out, &self.extra);
        proof {
            assert(out@ =~= self.text());
        }
        out
    }
}

} // verus!
