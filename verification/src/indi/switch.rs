//! Switch vectors: their definition and their update.

use crate::element::{DecodeError, Element, ElementView, Node, NodeView, TextMap};
use crate::indi::common::{
    all_described, children_named, decode_children, extra_text, first_refusal, lines_text,
    show_extra, show_lines, FromNode, IndiPermission, IndiState, Shown,
};
use crate::text::text_eq;
use vstd::prelude::*;

verus! {

/// How many switches of a vector may be on at once.
#[derive(Clone, Copy, Debug, PartialEq, Eq, Structural)]
pub enum IndiSwitchOptions {
    AnyOfMany,
    OneOfMany,
    AtMostOne,
}

impl IndiSwitchOptions {
    /// The rule that a text names, if it names one.
    pub open spec fn of_text(text: Seq<char>) -> Option<IndiSwitchOptions> {
        if text == "AnyOfMany"@ {
            Some(IndiSwitchOptions::AnyOfMany)
        } else if text == "OneOfMany"@ {
            Some(IndiSwitchOptions::OneOfMany)
        } else if text == "AtMostOne"@ {
            Some(IndiSwitchOptions::AtMostOne)
        } else {
            None
        }
    }

    /// Reads a rule from its name.
    pub fn from_text(text: &str) -> (r: Option<IndiSwitchOptions>)
        ensures
            r == Self::of_text(text@),
    {
        if text_eq(text, "AnyOfMany") {
            Some(IndiSwitchOptions::AnyOfMany)
        } else if text_eq(text, "OneOfMany") {
            Some(IndiSwitchOptions::OneOfMany)
        } else if text_eq(text, "AtMostOne") {
            Some(IndiSwitchOptions::AtMostOne)
        } else {
            None
        }
    }
}

/// The position of a switch.
#[derive(Clone, Copy, Debug, PartialEq, Eq, Structural)]
pub enum IndiSwitch {
    On,
    Off,
}

impl IndiSwitch {
    /// The position that a text names, if it names one.
    pub open spec fn of_text(text: Seq<char>) -> Option<IndiSwitch> {
        if text == "On"@ {
            Some(IndiSwitch::On)
        } else if text == "Off"@ {
            Some(IndiSwitch::Off)
        } else {
            None
        }
    }

    /// Reads a position from its name.
    pub fn from_text(text: &str) -> (r: Option<IndiSwitch>)
        ensures
            r == Self::of_text(text@),
    {
        if text_eq(text, "On") {
            Some(IndiSwitch::On)
        } else if text_eq(text, "Off") {
            Some(IndiSwitch::Off)
        } else {
            None
        }
    }
}

/// One switch of a definition.
#[derive(Debug)]
pub struct DefSwitchValue {
    pub name: String,
    pub label: String,
    pub value: IndiSwitch,
    /// The attributes that are no field of their own.
    pub extra: TextMap,
}

impl DefSwitchValue {
    /// The attributes that are fields.
    pub open spec fn known() -> Seq<&'static str> {
        seq!["name", "label"]
    }

    /// Whether the node lacks an attribute that a switch must have.
    pub open spec fn lacks(node: NodeView) -> bool {
        !node.has("name"@) || !node.has("label"@)
    }

    fn known_names() -> (r: Vec<&'static str>)
        ensures
            r@ == Self::known(),
    {
        vec!["name", "label"]
    }
}

impl FromNode for DefSwitchValue {
    open spec fn refusal(node: NodeView) -> Option<DecodeError> {
        if Self::lacks(node) {
            Some(DecodeError::MissingAttribute)
        } else if IndiSwitch::of_text(node.text) is None {
            Some(DecodeError::InvalidValue)
        } else {
            None
        }
    }

    open spec fn describes(&self, node: NodeView) -> bool {
        &&& self.name@ == node.value("name"@)
        &&& self.label@ == node.value("label"@)
        &&& Some(self.value) == IndiSwitch::of_text(node.text)
        &&& self.extra@ == node.residual(Self::known())
    }

    fn from_node(node: &Node) -> (r: Result<Self, DecodeError>) {
        let name = node.required("name")?;
        let label = node.required("label")?;
        let value = IndiSwitch::from_text(node.text.as_str());
        match value {
            Some(value) => {
                let extra = node.residual(&Self::known_names());
                Ok(DefSwitchValue { name, label, value, extra })
            },
            _ => Err(DecodeError::InvalidValue),
        }
    }
}

impl Shown for DefSwitchValue {
    /// The switch as it is shown: its name, with a star behind it where the
    /// switch is on.
    open spec fn text(&self) -> Seq<char> {
        if self.value == IndiSwitch::On {
            self.name@ + " *"@
        } else {
            self.name@
        }
    }

    fn to_text(&self) -> (r: String) {
        let mut out = self.name.clone();
        match self.value {
            IndiSwitch::On => {
                out.append(" *");
            },
            IndiSwitch::Off => {},
        }
        out
    }
}

/// The definition of a switch vector.
#[derive(Debug)]
pub struct DefSwitchVector {
    pub name: String,
    pub label: String,
    pub group: String,
    pub state: IndiState,
    pub rule: IndiSwitchOptions,
    pub device: String,
    pub perm: IndiPermission,
    /// The timeout in seconds, as the wire writes it.
    pub timeout: String,
    pub timestamp: String,
    pub switches: Vec<DefSwitchValue>,
    /// The attributes that are no field of their own.
    pub extra: TextMap,
}

impl DefSwitchVector {
    /// The attributes that are fields.
    pub open spec fn known() -> Seq<&'static str> {
        seq!["name", "label", "group", "state", "rule", "device", "perm", "timeout", "timestamp"]
    }

    /// Whether the node lacks an attribute that the vector must have.
    pub open spec fn lacks(node: NodeView) -> bool {
        ||| !node.has("name"@)
        ||| !node.has("label"@)
        ||| !node.has("group"@)
        ||| !node.has("state"@)
        ||| !node.has("rule"@)
        ||| !node.has("device"@)
        ||| !node.has("perm"@)
        ||| !node.has("timeout"@)
        ||| !node.has("timestamp"@)
    }

    /// Why the element is no definition of a switch vector, or `None` where it
    /// is one: an attribute is missing; or state, rule or permission is not one
    /// of their names; or a `defSwitch` child is no switch.
    pub open spec fn refusal(e: ElementView) -> Option<DecodeError> {
        if Self::lacks(e.root) {
            Some(DecodeError::MissingAttribute)
        } else if IndiState::of_text(e.root.value("state"@)) is None
            || IndiSwitchOptions::of_text(e.root.value("rule"@)) is None
            || IndiPermission::of_text(e.root.value("perm"@)) is None {
            Some(DecodeError::InvalidValue)
        } else {
            first_refusal::<DefSwitchValue>(children_named(e.children, "defSwitch"@))
        }
    }

    /// Whether this value is what the element says.
    pub open spec fn describes(&self, e: ElementView) -> bool {
        &&& self.name@ == e.root.value("name"@)
        &&& self.label@ == e.root.value("label"@)
        &&& self.group@ == e.root.value("group"@)
        &&& Some(self.state) == IndiState::of_text(e.root.value("state"@))
        &&& Some(self.rule) == IndiSwitchOptions::of_text(e.root.value("rule"@))
        &&& self.device@ == e.root.value("device"@)
        &&& Some(self.perm) == IndiPermission::of_text(e.root.value("perm"@))
        &&& self.timeout@ == e.root.value("timeout"@)
        &&& self.timestamp@ == e.root.value("timestamp"@)
        &&& all_described(self.switches@, children_named(e.children, "defSwitch"@))
        &&& self.extra@ == e.root.residual(Self::known())
    }

    fn known_names() -> (r: Vec<&'static str>)
        ensures
            r@ == Self::known(),
    {
        vec!["name", "label", "group", "state", "rule", "device", "perm", "timeout", "timestamp"]
    }

    /// Reads the definition of a switch vector from its element.
    pub fn from_element(e: &Element) -> (r: Result<Self, DecodeError>)
        ensures
            match r {
                Ok(v) => Self::refusal(e@) is None && v.describes(e@),
                Err(err) => Self::refusal(e@) == Some(err),
            },
    {
        let root = &e.root;
        let name = root.required("name")?;
        let label = root.required("label")?;
        let group = root.required("group")?;
        let state_text = root.required("state")?;
        let rule_text = root.required("rule")?;
        let device = root.required("device")?;
        let perm_text = root.required("perm")?;
        let timeout = root.required("timeout")?;
        let timestamp = root.required("timestamp")?;
        let state = IndiState::from_text(state_text.as_str());
        let rule = IndiSwitchOptions::from_text(rule_text.as_str());
        let perm = IndiPermission::from_text(perm_text.as_str());
        match (state, rule, perm) {
            (Some(state), Some(rule), Some(perm)) => {
                let switches = decode_children::<DefSwitchValue>(&e.children, "defSwitch")?;
                let extra = root.residual(&Self::known_names());
                Ok(DefSwitchVector {
                    name,
                    label,
                    group,
                    state,
                    rule,
                    device,
                    perm,
                    timeout,
                    timestamp,
                    switches,
                    extra,
                })
            },
            _ => Err(DecodeError::InvalidValue),
        }
    }
}

impl Shown for DefSwitchVector {
    /// The vector as it is shown: a line with the sign of its state, its device
    /// and its name, then a line for each switch, then the attributes that are
    /// no field, if there are any.
    open spec fn text(&self) -> Seq<char> {
        self.state.sign() + " "@ + self.device@ + "::"@ + self.name@ + "(switch)\n"@
            + lines_text(self.switches@) + extra_text(self.extra)
    }

    fn to_text(&self) -> (r: String) {
        let mut out = String::new();
        out.append(self.state.symbol());
        out.append(" ");
        out.append(self.device.as_str());
        out.append("::");
        out.append(self.name.as_str());
        out.append("(switch)\n");
        show_lines(&mut out, &self.switches);
        show_extra(&mut out, &self.extra);
        proof {
            assert(out@ =~= self.text());
        }
        out
    }
}

/// One switch of an update, as the wire writes it.
#[derive(Debug)]
pub struct SetSwitchValue {
    pub name: String,
    pub value: String,
    /// The attributes that are no field of their own.
    pub extra: TextMap,
}

impl SetSwitchValue {
    /// The attributes that are fields.
    pub open spec fn known() -> Seq<&'static str> {
        seq!["name"]
    }

    /// Whether the node lacks an attribute that a switch must have.
    pub open spec fn lacks(node: NodeView) -> bool {
        !node.has("name"@)
    }

    fn known_names() -> (r: Vec<&'static str>)
        ensures
            r@ == Self::known(),
    {
        vec!["name"]
    }
}

impl FromNode for SetSwitchValue {
    open spec fn refusal(node: NodeView) -> Option<DecodeError> {
        if Self::lacks(node) {
            Some(DecodeError::MissingAttribute)
        } else {
            None
        }
    }

    open spec fn describes(&self, node: NodeView) -> bool {
        &&& self.name@ == node.value("name"@)
        &&& self.value@ == node.text
        &&& self.extra@ == node.residual(Self::known())
    }

    fn from_node(node: &Node) -> (r: Result<Self, DecodeError>) {
        let name = node.required("name")?;
        let value = node.text.clone();
        let extra = node.residual(&Self::known_names());
        Ok(SetSwitchValue { name, value, extra })
    }
}

impl Shown for SetSwitchValue {
    /// The switch as it is shown: its name, an equals sign, its value.
    open spec fn text(&self) -> Seq<char> {
        self.name@ + " = "@ + self.value@
    }

    fn to_text(&self) -> (r: String) {
        let mut out = String::new();
        out.append(self.name.as_str());
        out.append(" = ");
        out.append(self.value.as_str());
        proof {
            assert(out@ =~= self.text());
        }
        out
    }
}

/// The update of a switch vector.
#[derive(Debug)]
pub struct SetSwitchVector {
    pub name: String,
    pub state: IndiState,
    pub device: String,
    /// The timeout in seconds, as the wire writes it.
    pub timeout: String,
    pub timestamp: String,
    pub switches: Vec<SetSwitchValue>,
    /// The attributes that are no field of their own.
    pub extra: TextMap,
}

impl SetSwitchVector {
    /// The attributes that are fields.
    pub open spec fn known() -> Seq<&'static str> {
        seq!["name", "state", "device", "timeout", "timestamp"]
    }

    /// Whether the node lacks an attribute that the vector must have.
    pub open spec fn lacks(node: NodeView) -> bool {
        ||| !node.has("name"@)
        ||| !node.has("state"@)
        ||| !node.has("device"@)
        ||| !node.has("timeout"@)
        ||| !node.has("timestamp"@)
    }

    /// Why the element is no update of a switch vector, or `None` where it is
    /// one: an attribute is missing; or the state is not one of its names; or a
    /// `oneSwitch` child is no switch.
    pub open spec fn refusal(e: ElementView) -> Option<DecodeError> {
        if Self::lacks(e.root) {
            Some(DecodeError::MissingAttribute)
        } else if IndiState::of_text(e.root.value("state"@)) is None {
            Some(DecodeError::InvalidValue)
        } else {
            first_refusal::<SetSwitchValue>(children_named(e.children, "oneSwitch"@))
        }
    }

    /// Whether this value is what the element says.
    pub open spec fn describes(&self, e: ElementView) -> bool {
        &&& self.name@ == e.root.value("name"@)
        &&& Some(self.state) == IndiState::of_text(e.root.value("state"@))
        &&& self.device@ == e.root.value("device"@)
        &&& self.timeout@ == e.root.value("timeout"@)
        &&& self.timestamp@ == e.root.value("timestamp"@)
        &&& all_described(self.switches@, children_named(e.children, "oneSwitch"@))
        &&& self.extra@ == e.root.residual(Self::known())
    }

    fn known_names() -> (r: Vec<&'static str>)
        ensures
            r@ == Self::known(),
    {
        vec!["name", "state", "device", "timeout", "timestamp"]
    }

    /// Reads the update of a switch vector from its element.
    pub fn from_element(e: &Element) -> (r: Result<Self, DecodeError>)
        ensures
            match r {
                Ok(v) => Self::refusal(e@) is None && v.describes(e@),
                Err(err) => Self::refusal(e@) == Some(err),
            },
    {
        let root = &e.root;
        let name = root.required("name")?;
        let state_text = root.required("state")?;
        let device = root.required("device")?;
        let timeout = root.required("timeout")?;
        let timestamp = root.required("timestamp")?;
        let state = IndiState::from_text(state_text.as_str());
        match state {
            Some(state) => {
                let switches = decode_children::<SetSwitchValue>(&e.children, "oneSwitch")?;
                let extra = root.residual(&Self::known_names());
                Ok(SetSwitchVector {
                    name,
                    state,
                    device,
                    timeout,
                    timestamp,
                    switches,
                    extra,
                })
            },
            _ => Err(DecodeError::InvalidValue),
        }
    }
}

impl Shown for SetSwitchVector {
    /// The vector as it is shown: a line with the sign of its state, its device
    /// and its name, then a line for each switch, then the attributes that are
    /// no field, if there are any.
    open spec fn text(&self) -> Seq<char> {
        self.state.sign() + " "@ + self.device@ + "::"@ + self.name@ + "(text)\n"@
            + lines_text(self.switches@) + extra_text(self.extra)
    }

    fn to_text(&self) -> (r: String) {
        let mut out = String::new();
        out.append(self.state.symbol());
        out.append(" ");
        out.append(self.device.as_str());
        out.append("::");
        out.append(self.name.as_str());
        out.append("(text)\n");
        show_lines(&mut out, &self.switches);
        show_extra(&mut out, &self.extra);
        proof {
            assert(out@ =~= self.text());
        }
        out
    }
}

} // verus!
