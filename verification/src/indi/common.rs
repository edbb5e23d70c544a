//! What the property vectors share: their state, their permission, and the way
//! a list of child elements becomes a list of values.

use crate::element::{node_views, DecodeError, Node, NodeView, TextMap};
use crate::text::text_eq;
use vstd::prelude::*;

verus! {

/// The state of a property vector or of a light.
#[derive(Clone, Copy, Debug, PartialEq, Eq, Structural)]
pub enum IndiState {
    Idle,
    /// The state that the wire calls `Ok`.
    Okay,
    Busy,
    Alert,
}

impl IndiState {
    /// The state that a text names, if it names one.
    pub open spec fn of_text(text: Seq<char>) -> Option<IndiState> {
        if text == "Idle"@ {
            Some(IndiState::Idle)
        } else if text == "Ok"@ {
            Some(IndiState::Okay)
        } else if text == "Busy"@ {
            Some(IndiState::Busy)
        } else if text == "Alert"@ {
            Some(IndiState::Alert)
        } else {
            None
        }
    }

    /// Reads a state from its name.
    pub fn from_text(text: &str) -> (r: Option<IndiState>)
        ensures
            r == Self::of_text(text@),
    {
        if text_eq(text, "Idle") {
            Some(IndiState::Idle)
        } else if text_eq(text, "Ok") {
            Some(IndiState::Okay)
        } else if text_eq(text, "Busy") {
            Some(IndiState::Busy)
        } else if text_eq(text, "Alert") {
            Some(IndiState::Alert)
        } else {
            None
        }
    }

    /// The name of the state on the wire.
    pub fn name(&self) -> (r: &'static str)
        ensures
            Self::of_text(r@) == Some(*self),
    {
        proof {
            reveal_strlit("Idle");
            reveal_strlit("Ok");
            reveal_strlit("Busy");
            reveal_strlit("Alert");
            assert("Idle"@.len() == 4 && "Ok"@.len() == 2 && "Busy"@.len() == 4 && "Alert"@.len() == 5);
            assert("Busy"@[0] == 'B' && "Idle"@[0] == 'I');
        }
        match self {
            IndiState::Idle => "Idle",
            IndiState::Okay => "Ok",
            IndiState::Busy => "Busy",
            IndiState::Alert => "Alert",
        }
    }

    /// The sign that stands for the state where messages are shown.
    pub open spec fn sign(self) -> Seq<char> {
        match self {
            IndiState::Idle => "⚪"@,
            IndiState::Okay => "🟢"@,
            IndiState::Busy => "🟡"@,
            IndiState::Alert => "🔴"@,
        }
    }

    /// The sign that stands for the state where messages are shown.
    pub fn symbol(&self) -> (r: &'static str)
        ensures
            r@ == self.sign(),
    {
        match self {
            IndiState::Idle => "⚪",
            IndiState::Okay => "🟢",
            IndiState::Busy => "🟡",
            IndiState::Alert => "🔴",
        }
    }
}

impl Default for IndiState {
    fn default() -> (r: Self)
        ensures
            r == IndiState::Idle,
    {
        IndiState::Idle
    }
}

/// Who may read and write a property.
#[derive(Clone, Copy, Debug, PartialEq, Eq, Structural)]
pub enum IndiPermission {
    /// Read-only.
    RO,
    /// Read and write.
    RW,
    /// Write-only.
    WO,
}

impl IndiPermission {
    /// The permission that a text names, if it names one.
    pub open spec fn of_text(text: Seq<char>) -> Option<IndiPermission> {
        if text == "ro"@ {
            Some(IndiPermission::RO)
        } else if text == "rw"@ {
            Some(IndiPermission::RW)
        } else if text == "wo"@ {
            Some(IndiPermission::WO)
        } else {
            None
        }
    }

    /// Reads a permission from its name.
    pub fn from_text(text: &str) -> (r: Option<IndiPermission>)
        ensures
            r == Self::of_text(text@),
    {
        if text_eq(text, "ro") {
            Some(IndiPermission::RO)
        } else if text_eq(text, "rw") {
            Some(IndiPermission::RW)
        } else if text_eq(text, "wo") {
            Some(IndiPermission::WO)
        } else {
            None
        }
    }

    /// The name of the permission on the wire.
    pub fn name(&self) -> (r: &'static str)
        ensures
            Self::of_text(r@) == Some(*self),
    {
        proof {
            reveal_strlit("ro");
            reveal_strlit("rw");
            reveal_strlit("wo");
            assert("rw"@[1] != "ro"@[1]);
            assert("wo"@[0] != "ro"@[0]);
            assert("wo"@[0] != "rw"@[0]);
        }
        match self {
            IndiPermission::RO => "ro",
            IndiPermission::RW => "rw",
            IndiPermission::WO => "wo",
        }
    }
}

/// A value that is read from one child element of a property vector.
pub trait FromNode: Sized {
    /// Why the node is no such value, or `None` where it is one.
    spec fn refusal(node: NodeView) -> Option<DecodeError>;

    /// Whether this value is what the node says.
    spec fn describes(&self, node: NodeView) -> bool;

    /// Reads the value from the node.
    fn from_node(node: &Node) -> (r: Result<Self, DecodeError>)
        ensures
            match r {
                Ok(v) => Self::refusal(node@) is None && v.describes(node@),
                Err(e) => Self::refusal(node@) == Some(e),
            },
    ;
}

/// The nodes of a list that bear the tag `tag`, in order.
pub open spec fn children_named(children: Seq<NodeView>, tag: Seq<char>) -> Seq<NodeView>
    decreases children.len(),
{
    if children.len() == 0 {
        Seq::empty()
    } else if children.last().name == tag {
        children_named(children.drop_last(), tag).push(children.last())
    } else {
        children_named(children.drop_last(), tag)
    }
}

/// The refusal of the first node, in order, that is no value of type `T`.
pub open spec fn first_refusal<T: FromNode>(nodes: Seq<NodeView>) -> Option<DecodeError>
    decreases nodes.len(),
{
    if nodes.len() == 0 {
        None
    } else {
        match first_refusal::<T>(nodes.drop_last()) {
            Some(e) => Some(e),
            None => T::refusal(nodes.last()),
        }
    }
}

/// Whether the values are what the nodes say, one for one and in order.
pub open spec fn all_described<T: FromNode>(values: Seq<T>, nodes: Seq<NodeView>) -> bool {
    &&& values.len() == nodes.len()
    &&& forall|i: int| 0 <= i < values.len() ==> (#[trigger] values[i]).describes(nodes[i])
}

/// Reads the children that bear the tag `tag` as values of type `T`.
///
/// Children with another tag are passed over. The first child, in order, that
/// bears the tag and is no such value decides the error.
pub fn decode_children<T: FromNode>(children: &Vec<Node>, tag: &str) -> (r: Result<
    Vec<T>,
    DecodeError,
>)
    ensures
        match r {
            Ok(values) => {
                &&& first_refusal::<T>(children_named(node_views(children@), tag@)) is None
                &&& all_described(values@, children_named(node_views(children@), tag@))
            },
            Err(e) => first_refusal::<T>(children_named(node_views(children@), tag@)) == Some(e),
        },
{
    let ghost nodes = node_views(children@);
    let mut values: Vec<T> = Vec::new();
    let mut failure: Option<DecodeError> = None;
    let mut i: usize = 0;
    proof {
        assert(nodes.take(0) =~= Seq::empty());
    }
    while i < children.len()
        invariant
            i <= children@.len(),
            nodes == node_views(children@),
            failure == first_refusal::<T>(children_named(nodes.take(i as int), tag@)),
            failure is None ==> all_described(values@, children_named(nodes.take(i as int), tag@)),
        decreases children@.len() - i,
    {
        proof {
            let next = nodes.take(i + 1);
            assert(next.drop_last() =~= nodes.take(i as int));
            assert(next.last() == children@[i as int]@);
        }
        let ghost before = children_named(nodes.take(i as int), tag@);
        let ghost after = children_named(nodes.take(i + 1), tag@);
        proof {
            if children@[i as int]@.name == tag@ {
                assert(after == before.push(children@[i as int]@));
                assert(after.drop_last() =~= before);
            } else {
                assert(after == before);
            }
        }
        if failure.is_none() && text_eq(children[i].name.as_str(), tag) {
            match T::from_node(&children[i]) {
                Ok(value) => {
                    values.push(value);
                },
                Err(e) => {
                    failure = Some(e);
                },
            }
        }
        i += 1;
    }
    proof {
        assert(nodes.take(i as int) =~= nodes);
    }
    match failure {
        Some(e) => Err(e),
        None => Ok(values),
    }
}

/// A value that is shown as text where messages are logged.
pub trait Shown {
    /// The value as text.
    spec fn text(&self) -> Seq<char>;

    /// Shows the value.
    fn to_text(&self) -> (r: String)
        ensures
            r@ == self.text(),
    ;
}

/// The values of a vector as they are shown: each on a line of its own, behind
/// a tab.
pub open spec fn lines_text<T: Shown>(values: Seq<T>) -> Seq<char>
    decreases values.len(),
{
    if values.len() == 0 {
        Seq::empty()
    } else {
        lines_text(values.drop_last()) + "\t"@ + values.last().text() + "\n"@
    }
}

/// The attributes that are no field as they are shown: on a line of their own,
/// or not at all where there are none.
pub open spec fn extra_text(extra: TextMap) -> Seq<char> {
    if extra.entries().len() == 0 {
        Seq::empty()
    } else {
        extra.text() + "\n"@
    }
}

/// Appends the lines of the values of a vector.
pub fn show_lines<T: Shown>(out: &mut String, values: &Vec<T>)
    ensures
        final(out)@ == old(out)@ + lines_text(values@),
{
    let ghost head = out@;
    let mut i: usize = 0;
    proof {
        assert(values@.take(0) =~= Seq::empty());
        assert(head + lines_text(values@.take(0)) =~= head);
    }
    while i < values.len()
        invariant
            i <= values@.len(),
            out@ == head + lines_text(values@.take(i as int)),
        decreases values@.len() - i,
    {
        proof {
            assert(values@.take(i + 1).drop_last() =~= values@.take(i as int));
        }
        out.append("\t");
        out.append(values[i].to_text().as_str());
        out.append("\n");
        proof {
            assert(out@ =~= head + lines_text(values@.take(i + 1)));
        }
        i += 1;
    }
    proof {
        assert(values@.take(i as int) =~= values@);
    }
}

/// Appends the line of the attributes that are no field.
pub fn show_extra(out: &mut String, extra: &TextMap)
    ensures
        final(out)@ == old(out)@ + extra_text(*extra),
{
    proof {
        extra.lemma_entries();
    }
    if !extra.is_empty() {
        out.append(extra.to_text().as_str());
        out.append("\n");
        proof {
            assert(out@ =~= old(out)@ + extra_text(*extra));
        }
    } else {
        proof {
            assert(out@ =~= old(out)@ + extra_text(*extra));
        }
    }
}

} // verus!
