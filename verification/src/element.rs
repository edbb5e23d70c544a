//! Documents as values: attributes, nodes, elements, and the map that a list
//! of attributes stands for.
//!
//! A message of the protocol is one element with attributes, some text, and
//! child elements that again have attributes and text. Nothing nests deeper, so
//! an [`Element`] holds its children as a flat list of [`Node`]s.

use crate::text::text_eq;
use vstd::prelude::*;

verus! {

/// Why a document could not be decoded.
#[derive(Clone, Copy, Debug, PartialEq, Eq, Structural)]
pub enum DecodeError {
    /// The bytes are not XML, or end inside a token.
    Malformed,
    /// A name or a text is not UTF-8.
    NotText,
    /// The bytes hold no complete element.
    NoElement,
    /// A required attribute is missing.
    MissingAttribute,
    /// An attribute or a text has a value that its field does not admit.
    InvalidValue,
}

/// One attribute: a name and its value with character references resolved.
#[derive(Clone, Debug)]
pub struct Attribute {
    pub name: String,
    pub value: String,
}

impl View for Attribute {
    type V = (Seq<char>, Seq<char>);

    open spec fn view(&self) -> (Seq<char>, Seq<char>) {
        (self.name@, self.value@)
    }
}

/// The attributes of a list as pairs of name and value, in order.
pub open spec fn attribute_pairs(attributes: Seq<Attribute>) -> Seq<(Seq<char>, Seq<char>)> {
    attributes.map_values(|a: Attribute| a@)
}

/// The map that a list of attributes stands for. Where a name occurs twice the
/// later value counts.
pub open spec fn attribute_map(pairs: Seq<(Seq<char>, Seq<char>)>) -> Map<Seq<char>, Seq<char>>
    decreases pairs.len(),
{
    if pairs.len() == 0 {
        Map::empty()
    } else {
        attribute_map(pairs.drop_last()).insert(pairs.last().0, pairs.last().1)
    }
}

/// The value that a list of attributes gives a name, if it gives one.
pub open spec fn attribute_value(pairs: Seq<(Seq<char>, Seq<char>)>, key: Seq<char>) -> Option<
    Seq<char>,
> {
    if attribute_map(pairs).contains_key(key) {
        Some(attribute_map(pairs)[key])
    } else {
        None
    }
}

/// The names in a list, as a set.
pub open spec fn name_set(names: Seq<&str>) -> Set<Seq<char>> {
    Set::new(|k: Seq<char>| exists|i: int| 0 <= i < names.len() && (#[trigger] names[i])@ == k)
}

/// The map of a list is decided by the last pair that bears the name.
pub proof fn lemma_attribute_map_last(pairs: Seq<(Seq<char>, Seq<char>)>, key: Seq<char>, i: int)
    requires
        0 <= i < pairs.len(),
        pairs[i].0 == key,
        forall|j: int| i < j < pairs.len() ==> (#[trigger] pairs[j]).0 != key,
    ensures
        attribute_value(pairs, key) == Some(pairs[i].1),
    decreases pairs.len(),
{
    if i == pairs.len() - 1 {
    } else {
        let front = pairs.drop_last();
        assert(forall|j: int| i < j < front.len() ==> (#[trigger] front[j]) == pairs[j]);
        assert(front[i] == pairs[i]);
        lemma_attribute_map_last(front, key, i);
        assert(pairs.last().0 != key);
    }
}

/// A name that no pair bears is not in the map.
pub proof fn lemma_attribute_map_absent(pairs: Seq<(Seq<char>, Seq<char>)>, key: Seq<char>)
    requires
        forall|j: int| 0 <= j < pairs.len() ==> (#[trigger] pairs[j]).0 != key,
    ensures
        attribute_value(pairs, key) is None,
    decreases pairs.len(),
{
    if pairs.len() > 0 {
        let front = pairs.drop_last();
        assert(forall|j: int| 0 <= j < front.len() ==> (#[trigger] front[j]) == pairs[j]);
        lemma_attribute_map_absent(front, key);
        assert(pairs.last().0 != key);
    }
}

/// Every name that occurs in a list is a key of its map.
pub proof fn lemma_attribute_map_holds_all(pairs: Seq<(Seq<char>, Seq<char>)>, i: int)
    requires
        0 <= i < pairs.len(),
    ensures
        attribute_map(pairs).contains_key(pairs[i].0),
    decreases pairs.len(),
{
    if i < pairs.len() - 1 {
        let front = pairs.drop_last();
        assert(front[i] == pairs[i]);
        lemma_attribute_map_holds_all(front, i);
    }
}

/// A copy of a list of attributes.
pub fn copy_attributes(attributes: &Vec<Attribute>) -> (r: Vec<Attribute>)
    ensures
        attribute_pairs(r@) == attribute_pairs(attributes@),
{
    let mut copy: Vec<Attribute> = Vec::new();
    let mut i: usize = 0;
    while i < attributes.len()
        invariant
            i <= attributes@.len(),
            copy@.len() == i,
            forall|j: int| 0 <= j < i ==> (#[trigger] copy@[j])@ == attributes@[j]@,
        decreases attributes@.len() - i,
    {
        copy.push(
            Attribute { name: attributes[i].name.clone(), value: attributes[i].value.clone() },
        );
        i += 1;
    }
    proof {
        assert(attribute_pairs(copy@) =~= attribute_pairs(attributes@));
    }
    copy
}

/// Looks a name up in a list of attributes.
pub fn find_attribute<'a>(attributes: &'a Vec<Attribute>, key: &str) -> (r: Option<&'a String>)
    ensures
        match r {
            Some(v) => attribute_value(attribute_pairs(attributes@), key@) == Some(v@),
            None => attribute_value(attribute_pairs(attributes@), key@) is None,
        },
{
    let ghost pairs = attribute_pairs(attributes@);
    let mut i: usize = attributes.len();
    while i > 0
        invariant
            i <= attributes@.len(),
            pairs == attribute_pairs(attributes@),
            forall|j: int| i <= j < pairs.len() ==> (#[trigger] pairs[j]).0 != key@,
        decreases i,
    {
        i -= 1;
        if text_eq(attributes[i].name.as_str(), key) {
            proof {
                lemma_attribute_map_last(pairs, key@, i as int);
            }
            return Some(&attributes[i].value);
        }
    }
    proof {
        lemma_attribute_map_absent(pairs, key@);
    }
    None
}

/// Whether a name is among the names of a list.
pub fn is_listed(names: &Vec<&str>, key: &str) -> (r: bool)
    ensures
        r == name_set(names@).contains(key@),
{
    let mut i: usize = 0;
    while i < names.len()
        invariant
            i <= names@.len(),
            forall|j: int| 0 <= j < i ==> (#[trigger] names@[j])@ != key@,
        decreases names@.len() - i,
    {
        if text_eq(names[i], key) {
            return true;
        }
        i += 1;
    }
    false
}

/// A map from text to text, kept as the list of its insertions.
#[derive(Clone, Debug)]
pub struct TextMap {
    entries: Vec<Attribute>,
}

impl View for TextMap {
    type V = Map<Seq<char>, Seq<char>>;

    closed spec fn view(&self) -> Map<Seq<char>, Seq<char>> {
        attribute_map(attribute_pairs(self.entries@))
    }
}

/// A pair as it is shown: `"name": "value"`.
pub open spec fn pair_text(pair: (Seq<char>, Seq<char>)) -> Seq<char> {
    "\""@ + pair.0 + "\": \""@ + pair.1 + "\""@
}

/// The pairs of a list as they are shown: each as [`pair_text`] says, with a
/// comma and a blank between two of them.
pub open spec fn pairs_text(pairs: Seq<(Seq<char>, Seq<char>)>) -> Seq<char>
    decreases pairs.len(),
{
    if pairs.len() == 0 {
        Seq::empty()
    } else if pairs.len() == 1 {
        pair_text(pairs[0])
    } else {
        pairs_text(pairs.drop_last()) + ", "@ + pair_text(pairs.last())
    }
}

impl TextMap {
    /// The insertions that the map was made by, in order.
    pub closed spec fn entries(&self) -> Seq<(Seq<char>, Seq<char>)> {
        attribute_pairs(self.entries@)
    }

    /// The map as it is shown: its insertions in order, between braces.
    pub open spec fn text(&self) -> Seq<char> {
        "{"@ + pairs_text(self.entries()) + "}"@
    }

    /// The map is the map of its insertions; it is empty exactly when there
    /// are none.
    pub proof fn lemma_entries(&self)
        ensures
            self@ == attribute_map(self.entries()),
            self.entries().len() == 0 <==> self@ == Map::<Seq<char>, Seq<char>>::empty(),
    {
        let pairs = self.entries();
        if pairs.len() > 0 {
            lemma_attribute_map_holds_all(pairs, 0);
            assert(!Map::<Seq<char>, Seq<char>>::empty().contains_key(pairs[0].0));
        }
    }

    /// Shows the map.
    pub fn to_text(&self) -> (r: String)
        ensures
            r@ == self.text(),
    {
        let ghost pairs = attribute_pairs(self.entries@);
        let mut out = String::from_str("{");
        let mut i: usize = 0;
        proof {
            assert(pairs.take(0) =~= Seq::empty());
            assert("{"@ + pairs_text(pairs.take(0)) =~= "{"@);
        }
        while i < self.entries.len()
            invariant
                i <= self.entries@.len(),
                pairs == attribute_pairs(self.entries@),
                out@ == "{"@ + pairs_text(pairs.take(i as int)),
            decreases self.entries@.len() - i,
        {
            let ghost before = out@;
            proof {
                assert(pairs.take(i + 1).drop_last() =~= pairs.take(i as int));
                assert(pairs.take(i + 1).last() == pairs[i as int]);
                assert(pairs.take(i + 1)[0] == pairs[0]);
            }
            if i > 0 {
                out.append(", ");
            }
            out.append("\"");
            out.append(self.entries[i].name.as_str());
            out.append("\": \"");
            out.append(self.entries[i].value.as_str());
            out.append("\"");
            proof {
                let shown = pairs_text(pairs.take(i + 1));
                if i == 0 {
                    assert(out@ =~= "{"@ + shown);
                } else {
                    assert(out@ =~= "{"@ + shown);
                }
            }
            i += 1;
        }
        proof {
            assert(pairs.take(i as int) =~= pairs);
        }
        out.append("}");
        out
    }

    /// The empty map.
    pub fn new() -> (r: Self)
        ensures
            r@ == Map::<Seq<char>, Seq<char>>::empty(),
    {
        TextMap { entries: Vec::new() }
    }

    /// Gives `key` the value `value`, whatever it had before.
    pub fn insert(&mut self, key: String, value: String)
        ensures
            final(self)@ == old(self)@.insert(key@, value@),
    {
        let ghost before = attribute_pairs(self.entries@);
        self.entries.push(Attribute { name: key, value });
        proof {
            let after = attribute_pairs(self.entries@);
            assert(after.drop_last() =~= before);
        }
    }

    /// The value of `key`, if it has one.
    pub fn get(&self, key: &str) -> (r: Option<&String>)
        ensures
            match r {
                Some(v) => self@.contains_key(key@) && self@[key@] == v@,
                None => !self@.contains_key(key@),
            },
    {
        find_attribute(&self.entries, key)
    }

    /// Whether `key` has a value.
    pub fn contains_key(&self, key: &str) -> (r: bool)
        ensures
            r == self@.contains_key(key@),
    {
        find_attribute(&self.entries, key).is_some()
    }

    /// Whether no key has a value.
    pub fn is_empty(&self) -> (r: bool)
        ensures
            r == (self@ == Map::<Seq<char>, Seq<char>>::empty()),
    {
        proof {
            let pairs = attribute_pairs(self.entries@);
            if pairs.len() > 0 {
                lemma_attribute_map_holds_all(pairs, 0);
                assert(!Map::<Seq<char>, Seq<char>>::empty().contains_key(pairs[0].0));
            }
        }
        self.entries.len() == 0
    }
}

/// A tag with its attributes and the text that stands directly inside it.
#[derive(Clone, Debug)]
pub struct Node {
    pub name: String,
    pub attributes: Vec<Attribute>,
    pub text: String,
}

/// The mathematical value of a [`Node`].
pub ghost struct NodeView {
    pub name: Seq<char>,
    pub attributes: Seq<(Seq<char>, Seq<char>)>,
    pub text: Seq<char>,
}

impl NodeView {
    /// The value of the attribute `key`, if the node has it.
    pub open spec fn attribute(self, key: Seq<char>) -> Option<Seq<char>> {
        attribute_value(self.attributes, key)
    }

    /// Whether the node has the attribute `key`.
    pub open spec fn has(self, key: Seq<char>) -> bool {
        attribute_map(self.attributes).contains_key(key)
    }

    /// The value of the attribute `key`; arbitrary where the node lacks it.
    pub open spec fn value(self, key: Seq<char>) -> Seq<char> {
        attribute_map(self.attributes)[key]
    }

    /// The attributes whose names are not among `known`, as a map.
    pub open spec fn residual(self, known: Seq<&str>) -> Map<Seq<char>, Seq<char>> {
        attribute_map(self.attributes).remove_keys(name_set(known))
    }
}

impl View for Node {
    type V = NodeView;

    open spec fn view(&self) -> NodeView {
        NodeView {
            name: self.name@,
            attributes: attribute_pairs(self.attributes@),
            text: self.text@,
        }
    }
}

impl Node {
    /// The value of the attribute `key`, if the node has it.
    pub fn attribute(&self, key: &str) -> (r: Option<&String>)
        ensures
            match r {
                Some(v) => self@.attribute(key@) == Some(v@),
                None => self@.attribute(key@) is None,
            },
    {
        find_attribute(&self.attributes, key)
    }

    /// A copy of the value of an attribute that must be there.
    pub fn required(&self, key: &str) -> (r: Result<String, DecodeError>)
        ensures
            match r {
                Ok(v) => self@.has(key@) && v@ == self@.value(key@),
                Err(e) => !self@.has(key@) && e == DecodeError::MissingAttribute,
            },
    {
        match find_attribute(&self.attributes, key) {
            Some(v) => Ok(v.clone()),
            None => Err(DecodeError::MissingAttribute),
        }
    }

    /// A copy of the value of the attribute `key`, where the node has it.
    pub fn optional_value_of(&self, key: &str) -> (r: Option<String>)
        ensures
            match r {
                Some(v) => self@.attribute(key@) == Some(v@),
                None => self@.attribute(key@) is None,
            },
    {
        match find_attribute(&self.attributes, key) {
            Some(v) => Some(v.clone()),
            None => None,
        }
    }

    /// The attributes whose names are not among `known`, as a map.
    pub fn residual(&self, known: &Vec<&str>) -> (r: TextMap)
        ensures
            r@ == self@.residual(known@),
    {
        let mut extra = TextMap::new();
        let ghost pairs = attribute_pairs(self.attributes@);
        let mut i: usize = 0;
        proof {
            assert(pairs.take(0) =~= Seq::empty());
            assert(attribute_map(pairs.take(0)).remove_keys(name_set(known@)) =~= Map::empty());
        }
        while i < self.attributes.len()
            invariant
                i <= self.attributes@.len(),
                pairs == attribute_pairs(self.attributes@),
                extra@ == attribute_map(pairs.take(i as int)).remove_keys(name_set(known@)),
            decreases self.attributes@.len() - i,
        {
            let a = &self.attributes[i];
            proof {
                let next = pairs.take(i + 1);
                assert(next.drop_last() =~= pairs.take(i as int));
                assert(next.last() == pairs[i as int]);
            }
            if !is_listed(known, a.name.as_str()) {
                extra.insert(a.name.clone(), a.value.clone());
                proof {
                    assert(extra@ =~= attribute_map(pairs.take(i + 1)).remove_keys(
                        name_set(known@),
                    ));
                }
            } else {
                proof {
                    assert(extra@ =~= attribute_map(pairs.take(i + 1)).remove_keys(
                        name_set(known@),
                    ));
                }
            }
            i += 1;
        }
        proof {
            assert(pairs.take(i as int) =~= pairs);
        }
        extra
    }
}

/// An element of the protocol: a tag, and the tags directly inside it.
#[derive(Clone, Debug)]
pub struct Element {
    pub root: Node,
    pub children: Vec<Node>,
}

/// The mathematical value of an [`Element`].
pub ghost struct ElementView {
    pub root: NodeView,
    pub children: Seq<NodeView>,
}

/// The values of a list of nodes, in order.
pub open spec fn node_views(nodes: Seq<Node>) -> Seq<NodeView> {
    nodes.map_values(|n: Node| n@)
}

impl View for Element {
    type V = ElementView;

    open spec fn view(&self) -> ElementView {
        ElementView { root: self.root@, children: node_views(self.children@) }
    }
}

} // verus!
