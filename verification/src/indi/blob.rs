//! BLOB vectors: their definition and their update. The payload of a BLOB is
//! kept as the encoded text that the wire carries.

use crate::element::{DecodeError, Element, ElementView, Node, NodeView, TextMap};
use crate::indi::common::{
    all_described, children_named, decode_children, extra_text, first_refusal, lines_text,
    show_extra, show_lines, FromNode, IndiPermission, IndiState, Shown,
};
use crate::text::{byte_length, decimal_of, decimal_text, parse_decimal, write_decimal};
use vstd::prelude::*;
use vstd::utf8::encode_utf8;

verus! {

/// One BLOB of a definition.
#[derive(Debug)]
pub struct DefBlobValue {
    pub name: String,
    pub label: String,
    pub value: String,
    /// The attributes that are no field of their own.
    pub extra: TextMap,
}

impl DefBlobValue {
    /// The attributes that are fields.
    pub open spec fn known() -> Seq<&'static str> {
        seq!["name", "label"]
    }

    /// Whether the node lacks an attribute that a BLOB must have.
    pub open spec fn lacks(node: NodeView) -> bool {
        !node.has("name"@) || !node.has("label"@)
    }

    fn known_names() -> (r: Vec<&'static str>)
        ensures
            r@ == Self::known(),
    {
        vec!["name", "label"]
    }
}

impl FromNode for DefBlobValue {
    open spec fn refusal(node: NodeView) -> Option<DecodeError> {
        if Self::lacks(node) {
            Some(DecodeError::MissingAttribute)
        } else {
            None
        }
    }

    open spec fn describes(&self, node: NodeView) -> bool {
        &&& self.name@ == node.value("name"@)
        &&& self.label@ == node.value("label"@)
        &&& self.value@ == node.text
        &&& self.extra@ == node.residual(Self::known())
    }

    fn from_node(node: &Node) -> (r: Result<Self, DecodeError>) {
        let name = node.required("name")?;
        let label = node.required("label")?;
        let value = node.text.clone();
        let extra = node.residual(&Self::known_names());
        Ok(DefBlobValue { name, label, value, extra })
    }
}

impl Shown for DefBlobValue {
    /// The BLOB as it is shown: its name, an equals sign, its value.
    open spec fn text(&self) -> Seq<char> {
        self.name@ + " = "@ + self.value@
    }

    fn to_text(&self) -> (r: String) {
        let mut out = String::new();
        out.append(self.name.as_str());
        out.append(" = ");
        out.append(self.value.as_str());
        proof {
            assert(out@ =~= self.text());
        }
        out
    }
}

/// The definition of a BLOB vector.
#[derive(Debug)]
pub struct DefBlobVector {
    pub name: String,
    pub label: String,
    pub group: String,
    pub state: IndiState,
    pub device: String,
    pub perm: IndiPermission,
    /// The timeout in seconds, as the wire writes it.
    pub timeout: String,
    pub timestamp: String,
    pub blobs: Vec<DefBlobValue>,
    /// The attributes that are no field of their own.
    pub extra: TextMap,
}

impl DefBlobVector {
    /// The attributes that are fields.
    pub open spec fn known() -> Seq<&'static str> {
        seq!["name", "label", "group", "state", "device", "perm", "timeout", "timestamp"]
    }

    /// Whether the node lacks an attribute that the vector must have.
    pub open spec fn lacks(node: NodeView) -> bool {
        ||| !node.has("name"@)
        ||| !node.has("label"@)
        ||| !node.has("group"@)
        ||| !node.has("state"@)
        ||| !node.has("device"@)
        ||| !node.has("perm"@)
        ||| !node.has("timeout"@)
        ||| !node.has("timestamp"@)
    }

    /// Why the element is no definition of a BLOB vector, or `None` where it is
    /// one: an attribute is missing; or state or permission is not one of their
    /// names; or a `defBLOB` child is no BLOB.
    pub open spec fn refusal(e: ElementView) -> Option<DecodeError> {
        if Self::lacks(e.root) {
            Some(DecodeError::MissingAttribute)
        } else if IndiState::of_text(e.root.value("state"@)) is None
            || IndiPermission::of_text(e.root.value("perm"@)) is None {
            Some(DecodeError::InvalidValue)
        } else {
            first_refusal::<DefBlobValue>(children_named(e.children, "defBLOB"@))
        }
    }

    /// Whether this value is what the element says.
    pub open spec fn describes(&self, e: ElementView) -> bool {
        &&& self.name@ == e.root.value("name"@)
        &&& self.label@ == e.root.value("label"@)
        &&& self.group@ == e.root.value("group"@)
        &&& Some(self.state) == IndiState::of_text(e.root.value("state"@))
        &&& self.device@ == e.root.value("device"@)
        &&& Some(self.perm) == IndiPermission::of_text(e.root.value("perm"@))
        &&& self.timeout@ == e.root.value("timeout"@)
        &&& self.timestamp@ == e.root.value("timestamp"@)
        &&& all_described(self.blobs@, children_named(e.children, "defBLOB"@))
        &&& self.extra@ == e.root.residual(Self::known())
    }

    fn known_names() -> (r: Vec<&'static str>)
        ensures
            r@ == Self::known(),
    {
        vec!["name", "label", "group", "state", "device", "perm", "timeout", "timestamp"]
    }

    /// Reads the definition of a BLOB vector from its element.
    pub fn from_element(e: &Element) -> (r: Result<Self, DecodeError>)
        ensures
            match r {
                Ok(v) => Self::refusal(e@) is None && v.describes(e@),
                Err(err) => Self::refusal(e@) == Some(err),
            },
    {
        let root = &e.root;
        let name = root.required("name")?;
        let label = root.required("label")?;
        let group = root.required("group")?;
        let state_text = root.required("state")?;
        let device = root.required("device")?;
        let perm_text = root.required("perm")?;
        let timeout = root.required("timeout")?;
        let timestamp = root.required("timestamp")?;
        let state = IndiState::from_text(state_text.as_str());
        let perm = IndiPermission::from_text(perm_text.as_str());
        match (state, perm) {
            (Some(state), Some(perm)) => {
                let blobs = decode_children::<DefBlobValue>(&e.children, "defBLOB")?;
                let extra = root.residual(&Self::known_names());
                Ok(DefBlobVector {
                    name,
                    label,
                    group,
                    state,
                    device,
                    perm,
                    timeout,
                    timestamp,
                    blobs,
                    extra,
                })
            },
            _ => Err(DecodeError::InvalidValue),
        }
    }
}

impl Shown for DefBlobVector {
    /// The vector as it is shown: a line with the sign of its state, its device
    /// and its name, then a line for each BLOB, then the attributes that are
    /// no field, if there are any.
    open spec fn text(&self) -> Seq<char> {
        self.state.sign() + " "@ + self.device@ + "::"@ + self.name@ + "(blob)\n"@
            + lines_text(self.blobs@) + extra_text(self.extra)
    }

    fn to_text(&self) -> (r: String) {
        let mut out = String::new();
        out.append(self.state.symbol());
        out.append(" ");
        out.append(self.device.as_str());
        out.append("::");
        out.append(self.name.as_str());
        out.append("(blob)\n");
        show_lines(&mut out, &self.blobs);
        show_extra(&mut out, &self.extra);
        proof {
            assert(out@ =~= self.text());
        }
        out
    }
}

/// One BLOB of an update. `size` and `len` are what the sender declared; they
/// are not held against the length of the payload.
#[derive(Debug)]
pub struct SetBlobValue {
    pub name: String,
    /// The declared size of the payload once decoded.
    pub size: usize,
    /// The declared length of the encoded payload.
    pub len: usize,
    pub format: String,
    /// The payload, still encoded.
    pub value: String,
    /// The attributes that are no field of their own.
    pub extra: TextMap,
}

impl SetBlobValue {
    /// The attributes that are fields.
    pub open spec fn known() -> Seq<&'static str> {
        seq!["name", "size", "len", "format"]
    }

    /// Whether the node lacks an attribute that a BLOB must have.
    pub open spec fn lacks(node: NodeView) -> bool {
        ||| !node.has("name"@)
        ||| !node.has("size"@)
        ||| !node.has("len"@)
        ||| !node.has("format"@)
    }

    fn known_names() -> (r: Vec<&'static str>)
        ensures
            r@ == Self::known(),
    {
        vec!["name", "size", "len", "format"]
    }
}

impl FromNode for SetBlobValue {
    open spec fn refusal(node: NodeView) -> Option<DecodeError> {
        if Self::lacks(node) {
            Some(DecodeError::MissingAttribute)
        } else if decimal_of(encode_utf8(node.value("size"@))) is None
            || decimal_of(encode_utf8(node.value("len"@))) is None {
            Some(DecodeError::InvalidValue)
        } else {
            None
        }
    }

    open spec fn describes(&self, node: NodeView) -> bool {
        &&& self.name@ == node.value("name"@)
        &&& Some(self.size) == decimal_of(encode_utf8(node.value("size"@)))
        &&& Some(self.len) == decimal_of(encode_utf8(node.value("len"@)))
        &&& self.format@ == node.value("format"@)
        &&& self.value@ == node.text
        &&& self.extra@ == node.residual(Self::known())
    }

    fn from_node(node: &Node) -> (r: Result<Self, DecodeError>) {
        let name = node.required("name")?;
        let size_text = node.required("size")?;
        let len_text = node.required("len")?;
        let format = node.required("format")?;
        let size = parse_decimal(size_text.as_str());
        let len = parse_decimal(len_text.as_str());
        match (size, len) {
            (Some(size), Some(len)) => {
                let value = node.text.clone();
                let extra = node.residual(&Self::known_names());
                Ok(SetBlobValue { name, size, len, format, value, extra })
            },
            _ => Err(DecodeError::InvalidValue),
        }
    }
}

impl Shown for SetBlobValue {
    /// The BLOB as it is shown: its name, the number of bytes of its encoded
    /// payload, and the payload.
    open spec fn text(&self) -> Seq<char> {
        self.name@ + " = "@ + decimal_text(byte_length(self.value@) as nat) + " bytes = "@
            + self.value@
    }

    fn to_text(&self) -> (r: String) {
        let mut out = String::new();
        out.append(self.name.as_str());
        out.append(" = ");
        out.append(write_decimal(self.value.as_str().len()).as_str());
        out.append(" bytes = ");
        out.append(self.value.as_str());
        proof {
            assert(out@ =~= self.text());
        }
        out
    }
}

/// The update of a BLOB vector.
#[derive(Debug)]
pub struct SetBlobVector {
    pub name: String,
    pub state: IndiState,
    pub device: String,
    /// The timeout in seconds, as the wire writes it.
    pub timeout: String,
    pub timestamp: String,
    pub blobs: Vec<SetBlobValue>,
    /// The attributes that are no field of their own.
    pub extra: TextMap,
}

impl SetBlobVector {
    /// The attributes that are fields.
    pub open spec fn known() -> Seq<&'static str> {
        seq!["name", "state", "device", "timeout", "timestamp"]
    }

    /// Whether the node lacks an attribute that the vector must have.
    pub open spec fn lacks(node: NodeView) -> bool {
        ||| !node.has("name"@)
        ||| !node.has("state"@)
        ||| !node.has("device"@)
        ||| !node.has("timeout"@)
        ||| !node.has("timestamp"@)
    }

    /// Why the element is no update of a BLOB vector, or `None` where it is
    /// one: an attribute is missing; or the state is not one of its names; or a
    /// `oneBLOB` child is no BLOB.
    pub open spec fn refusal(e: ElementView) -> Option<DecodeError> {
        if Self::lacks(e.root) {
            Some(DecodeError::MissingAttribute)
        } else if IndiState::of_text(e.root.value("state"@)) is None {
            Some(DecodeError::InvalidValue)
        } else {
            first_refusal::<SetBlobValue>(children_named(e.children, "oneBLOB"@))
        }
    }

    /// Whether this value is what the element says.
    pub open spec fn describes(&self, e: ElementView) -> bool {
        &&& self.name@ == e.root.value("name"@)
        &&& Some(self.state) == IndiState::of_text(e.root.value("state"@))
        &&& self.device@ == e.root.value("device"@)
        &&& self.timeout@ == e.root.value("timeout"@)
        &&& self.timestamp@ == e.root.value("timestamp"@)
        &&& all_described(self.blobs@, children_named(e.children, "oneBLOB"@))
        &&& self.extra@ == e.root.residual(Self::known())
    }

    fn known_names() -> (r: Vec<&'static str>)
        ensures
            r@ == Self::known(),
    {
        vec!["name", "state", "device", "timeout", "timestamp"]
    }

    /// Reads the update of a BLOB vector from its element.
    pub fn from_element(e: &Element) -> (r: Result<Self, DecodeError>)
        ensures
            match r {
                Ok(v) => Self::refusal(e@) is None && v.describes(e@),
                Err(err) => Self::refusal(e@) == Some(err),
            },
    {
        let root = &e.root;
        let name = root.required("name")?;
        let state_text = root.required("state")?;
        let device = root.required("device")?;
        let timeout = root.required("timeout")?;
        let timestamp = root.required("timestamp")?;
        let state = IndiState::from_text(state_text.as_str());
        match state {
            Some(state) => {
                let blobs = decode_children::<SetBlobValue>(&e.children, "oneBLOB")?;
                let extra = root.residual(&Self::known_names());
                Ok(SetBlobVector {
                    name,
                    state,
                    device,
                    timeout,
                    timestamp,
                    blobs,
                    extra,
                })
            },
            _ => Err(DecodeError::InvalidValue),
        }
    }
}

/// What an update declares of the size of a BLOB is not held against the
/// payload: whether a node is a BLOB of an update does not depend on its text,
/// and a node that names the BLOB and its format and declares size and length
/// as numbers is one, whatever the numbers.
pub proof fn lemma_declared_size_is_not_checked(node: NodeView, text: Seq<char>)
    ensures
        SetBlobValue::refusal(NodeView { text, ..node }) == SetBlobValue::refusal(node),
        !SetBlobValue::lacks(node) && decimal_of(encode_utf8(node.value("size"@))) is Some
            && decimal_of(encode_utf8(node.value("len"@))) is Some ==> SetBlobValue::refusal(
            NodeView { text, ..node },
        ) is None,
{
}

/// The BLOBs of an update as they are shown in their vector: for each a line
/// with its format and its declared length.
pub open spec fn blob_lines_text(blobs: Seq<SetBlobValue>) -> Seq<char>
    decreases blobs.len(),
{
    if blobs.len() == 0 {
        Seq::empty()
    } else {
        blob_lines_text(blobs.drop_last()) + "\tformat: "@ + blobs.last().format@ + ", len: "@
            + decimal_text(blobs.last().len as nat) + "\n"@
    }
}

impl Shown for SetBlobVector {
    /// The vector as it is shown: a line with the sign of its state, its device
    /// and its name, then a line for each BLOB with its format and declared
    /// length, then the attributes that are no field, if there are any.
    open spec fn text(&self) -> Seq<char> {
        self.state.sign() + " "@ + self.device@ + "::"@ + self.name@ + "(blob)\n"@
            + blob_lines_text(self.blobs@) + extra_text(self.extra)
    }

    fn to_text(&self) -> (r: String) {
        let mut out = String::new();
        out.append(self.state.symbol());
        out.append(" ");
        out.append(self.device.as_str());
        out.append("::");
        out.append(self.name.as_str());
        out.append("(blob)\n");
        let ghost head = out@;
        let mut i: usize = 0;
        proof {
            assert(self.blobs@.take(0) =~= Seq::empty());
            assert(head + blob_lines_text(self.blobs@.take(0)) =~= head);
        }
        while i < self.blobs.len()
            invariant
                i <= self.blobs@.len(),
                out@ == head + blob_lines_text(self.blobs@.take(i as int)),
            decreases self.blobs@.len() - i,
        {
            proof {
                assert(self.blobs@.take(i + 1).drop_last() =~= self.blobs@.take(i as int));
            }
            out.append("\tformat: ");
            out.append(self.blobs[i].format.as_str());
            out.append(", len: ");
            out.append(write_decimal(self.blobs[i].len).as_str());
            out.append("\n");
            proof {
                assert(out@ =~= head + blob_lines_text(self.blobs@.take(i + 1)));
            }
            i += 1;
        }
        proof {
            assert(self.blobs@.take(i as int) =~= self.blobs@);
        }
        show_extra(&mut out, &self.extra);
        proof {
            assert(out@ =~= self.text());
        }
        out
    }
}

} // verus!
