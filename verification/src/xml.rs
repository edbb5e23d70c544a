//! The boundary to the XML tokenizer and writer.
//!
//! Everything the library knows about XML syntax comes through the functions
//! of this module whose bodies call `quick_xml`. Their contracts are believed,
//! not proved; each says so in its documentation. On top of them stands
//! [`take_head`], verified, which turns the tokenizer's answer for a byte
//! sequence that may end anywhere into a token whose extent is known.

use crate::element::{attribute_pairs, Attribute};
use crate::xml::XmlAttributeKind::{Absent, Present, Unreadable};
use crate::xml::XmlTokenKind::{Empty, End, Eof, Incomplete, Malformed, Other, Start, Text};
use quick_xml::events::Event;
use quick_xml::Error;
use vstd::prelude::*;
use vstd::utf8::encode_utf8;

verus! {

/// What kind of event the tokenizer reports at the head of a byte sequence.
#[derive(Clone, Copy, Debug, PartialEq, Eq, Structural)]
pub enum XmlTokenKind {
    /// An opening tag `<name ...>`.
    Start,
    /// A closing tag `</name>`.
    End,
    /// A self-closing tag `<name .../>`.
    Empty,
    /// Character data between tags.
    Text,
    /// A comment, CDATA section, declaration, processing instruction or DOCTYPE.
    Other,
    /// The tokenizer found no further event.
    Eof,
    /// The tokenizer ran out of input inside a piece of markup.
    Incomplete,
    /// The tokenizer refused the input.
    Malformed,
}

/// One answer of the tokenizer.
pub struct XmlToken {
    pub kind: XmlTokenKind,
    /// The event's bytes without its delimiters.
    pub content: Vec<u8>,
    /// The reader's position after the event.
    pub end: usize,
}

/// Whether the tokenizer found an attribute at some index of a tag.
#[derive(Clone, Copy, Debug, PartialEq, Eq, Structural)]
pub enum XmlAttributeKind {
    /// A well-formed attribute stands at the index.
    Present,
    /// What stands at the index is not a well-formed attribute.
    Unreadable,
    /// The tag has no attribute at the index.
    Absent,
}

/// One attribute as the tokenizer hands it out: raw key and raw value.
pub struct XmlAttribute {
    pub kind: XmlAttributeKind,
    pub key: Vec<u8>,
    pub value: Vec<u8>,
}

/// The event that `quick_xml` reads first from `input`: its kind, its content
/// and the reader's position afterwards.
pub uninterp spec fn xml_token(input: Seq<u8>) -> (XmlTokenKind, Seq<u8>, usize);

/// The name of the tag that `quick_xml` reads first from `input`.
pub uninterp spec fn xml_tag_name(input: Seq<u8>) -> Seq<u8>;

/// The attribute that `quick_xml` yields at position `index` of the tag that it
/// reads first from `input`.
pub uninterp spec fn xml_attribute(input: Seq<u8>, index: usize) -> (
    XmlAttributeKind,
    Seq<u8>,
    Seq<u8>,
);

/// The text that `quick_xml` makes of `raw` by resolving its character and
/// entity references, or `None` where it refuses one of them.
pub uninterp spec fn xml_unescaped(raw: Seq<char>) -> Option<Seq<char>>;

/// Reads one event with `quick_xml::Reader::read_event` from a fresh reader over
/// `input`, with text trimming on and end-name checking off.
///
/// Trusted: the result is a function of the input bytes alone, named
/// [`xml_token`]. Nothing else is claimed.
#[verifier::external_body]
pub(crate) fn read_token(input: &[u8]) -> (r: XmlToken)
    ensures
        (r.kind, r.content@, r.end) == xml_token(input@),
{
    let mut reader = quick_xml::Reader::from_reader(input);
    let event = reader.trim_text(true).check_end_names(false).read_event();
    let end = reader.buffer_position();
    let content = event.as_ref().map_or(Vec::new(), |e| e.to_vec());
    let kind = match event {
        Ok(Event::Start(_)) => Start,
        Ok(Event::End(_)) => End,
        Ok(Event::Empty(_)) => Empty,
        Ok(Event::Text(_)) => Text,
        Ok(Event::Eof) => Eof,
        Ok(_) => Other,
        Err(Error::UnexpectedEof(_)) => Incomplete,
        Err(_) => Malformed,
    };
    XmlToken { kind, content, end }
}

/// Reads the first event as [`read_token`] does and asks `BytesStart::name` for
/// the tag's name; empty where the event is no opening or self-closing tag.
///
/// Trusted: the result is a function of the input bytes alone, named
/// [`xml_tag_name`].
#[verifier::external_body]
pub(crate) fn read_tag_name(input: &[u8]) -> (r: Vec<u8>)
    ensures
        r@ == xml_tag_name(input@),
{
    let mut reader = quick_xml::Reader::from_reader(input);
    match reader.trim_text(true).check_end_names(false).read_event() {
        Ok(Event::Start(e)) => e.name().as_ref().to_vec(),
        Ok(Event::Empty(e)) => e.name().as_ref().to_vec(),
        _ => Vec::new(),
    }
}

/// Reads the first event as [`read_token`] does and takes item `index` of
/// `BytesStart::attributes`; absent where the event is no opening or
/// self-closing tag.
///
/// Trusted: the result is a function of the input bytes and the index alone,
/// named [`xml_attribute`].
#[verifier::external_body]
pub(crate) fn read_attribute(input: &[u8], index: usize) -> (r: XmlAttribute)
    ensures
        (r.kind, r.key@, r.value@) == xml_attribute(input@, index),
{
    let mut reader = quick_xml::Reader::from_reader(input);
    let event = reader.trim_text(true).check_end_names(false).read_event();
    let item = match &event {
        Ok(Event::Start(e)) => e.attributes().nth(index),
        Ok(Event::Empty(e)) => e.attributes().nth(index),
        _ => None,
    };
    match item {
        Some(Ok(a)) => {
            XmlAttribute { kind: Present, key: a.key.as_ref().to_vec(), value: a.value.to_vec() }
        },
        Some(Err(_)) => XmlAttribute { kind: Unreadable, key: Vec::new(), value: Vec::new() },
        None => XmlAttribute { kind: Absent, key: Vec::new(), value: Vec::new() },
    }
}

/// Resolves character and entity references with `quick_xml::escape::unescape`.
///
/// Trusted: the result, or its absence, is a function of the raw text alone,
/// named [`xml_unescaped`].
#[verifier::external_body]
pub(crate) fn unescape_text(raw: &str) -> (r: Option<String>)
    ensures
        match r {
            Some(s) => xml_unescaped(raw@) == Some(s@),
            None => xml_unescaped(raw@) is None,
        },
{
    quick_xml::escape::unescape(raw).ok().map(|s| s.into_owned())
}

/// What the writer puts in place of a character: the five characters that
/// markup is made of become entity references, every other stays.
pub open spec fn escaped_char(c: char) -> Seq<char> {
    if c == '<' {
        "&lt;"@
    } else if c == '>' {
        "&gt;"@
    } else if c == '&' {
        "&amp;"@
    } else if c == '\u{27}' {
        "&apos;"@
    } else if c == '"' {
        "&quot;"@
    } else {
        seq![c]
    }
}

/// A text with each of its characters escaped.
pub open spec fn escaped(text: Seq<char>) -> Seq<char>
    decreases text.len(),
{
    if text.len() == 0 {
        Seq::empty()
    } else {
        escaped_char(text[0]) + escaped(text.drop_first())
    }
}

/// Attributes as they stand in a tag: each as a blank, the name, `="`, the
/// escaped value and `"`.
pub open spec fn attributes_text(pairs: Seq<(Seq<char>, Seq<char>)>) -> Seq<char>
    decreases pairs.len(),
{
    if pairs.len() == 0 {
        Seq::empty()
    } else {
        " "@ + pairs[0].0 + "=\""@ + escaped(pairs[0].1) + "\""@ + attributes_text(
            pairs.drop_first(),
        )
    }
}

/// A self-closing element: `<name attributes/>`.
pub open spec fn empty_element_text(name: Seq<char>, pairs: Seq<(Seq<char>, Seq<char>)>) -> Seq<
    char,
> {
    "<"@ + name + attributes_text(pairs) + "/>"@
}

/// An element with text inside: `<name attributes>text</name>`, the text
/// escaped.
pub open spec fn text_element_text(
    name: Seq<char>,
    pairs: Seq<(Seq<char>, Seq<char>)>,
    text: Seq<char>,
) -> Seq<char> {
    "<"@ + name + attributes_text(pairs) + ">"@ + escaped(text) + "</"@ + name + ">"@
}

/// The bytes of a self-closing element.
pub open spec fn empty_element_xml(name: Seq<char>, pairs: Seq<(Seq<char>, Seq<char>)>) -> Seq<u8> {
    encode_utf8(empty_element_text(name, pairs))
}

/// The bytes of an element with text inside.
pub open spec fn text_element_xml(
    name: Seq<char>,
    pairs: Seq<(Seq<char>, Seq<char>)>,
    text: Seq<char>,
) -> Seq<u8> {
    encode_utf8(text_element_text(name, pairs, text))
}

/// Writes a self-closing element with `quick_xml::Writer::create_element`,
/// `ElementWriter::with_attributes` and `ElementWriter::write_empty`, into a
/// vector and without indentation.
///
/// Trusted: the writer puts out `<`, the name as given, the attributes in
/// order, each as [`attributes_text`] says, and `/>`; attribute values are
/// escaped as the crate documents for `escape`.
#[verifier::external_body]
pub(crate) fn write_empty_element(name: &str, attributes: &Vec<Attribute>) -> (r: Vec<u8>)
    ensures
        r@ == empty_element_xml(name@, attribute_pairs(attributes@)),
{
    let mut writer = quick_xml::Writer::new(Vec::new());
    let pairs = attributes.iter().map(|a| (a.name.as_str(), a.value.as_str()));
    let _ = writer.create_element(name).with_attributes(pairs).write_empty();
    writer.into_inner()
}

/// Writes an element with text inside with `quick_xml::Writer::create_element`,
/// `ElementWriter::with_attributes` and `ElementWriter::write_text_content`,
/// into a vector and without indentation.
///
/// Trusted: the writer puts out the opening tag as [`write_empty_element`] does
/// but closed by `>`, the text escaped as the crate documents for `escape`, and
/// the closing tag `</name>`.
#[verifier::external_body]
pub(crate) fn write_text_element(name: &str, attributes: &Vec<Attribute>, text: &str) -> (r: Vec<
    u8,
>)
    ensures
        r@ == text_element_xml(name@, attribute_pairs(attributes@), text@),
{
    let mut writer = quick_xml::Writer::new(Vec::new());
    let pairs = attributes.iter().map(|a| (a.name.as_str(), a.value.as_str()));
    let content = quick_xml::events::BytesText::new(text);
    let _ = writer.create_element(name).with_attributes(pairs).write_text_content(content);
    writer.into_inner()
}

/// What stands at the head of a byte sequence that may end anywhere.
#[derive(Clone, Copy, Debug, PartialEq, Eq, Structural)]
pub enum HeadKind {
    /// A complete opening tag.
    Start,
    /// A complete closing tag.
    End,
    /// A complete self-closing tag.
    Empty,
    /// Character data, closed by the `<` that follows it.
    Text,
    /// A complete comment, CDATA section, declaration, processing instruction
    /// or DOCTYPE, or a byte-order mark.
    Other,
    /// Nothing but whitespace.
    Blank,
    /// A token that more input may still complete.
    Partial,
    /// Bytes that are not XML.
    Broken,
}

/// The token at the head of a byte sequence, with the number of bytes it takes.
pub struct Head {
    pub kind: HeadKind,
    /// The token's bytes without its delimiters; empty for the kinds that carry
    /// none.
    pub content: Vec<u8>,
    /// How many bytes of the input belong to the token.
    pub span: usize,
}

/// Whether the sequence begins with the UTF-8 byte-order mark.
pub open spec fn starts_with_bom(input: Seq<u8>) -> bool {
    input.len() >= 3 && input[0] == 0xEFu8 && input[1] == 0xBBu8 && input[2] == 0xBFu8
}

/// The token at the head of `input`, judged from an answer of the tokenizer
/// for `input` and from the byte at which the tokenizer stopped.
///
/// The tokenizer reads from a slice and so takes the end of the slice for the
/// end of the document. A closing tag, a processing instruction or a run of
/// text that merely stops at the end of the slice is therefore reported as if
/// it were complete. Such a token counts as complete here only if the byte that
/// ends it is there: for markup the `>` that the tokenizer read last, for text
/// the `<` at which the tokenizer stopped. An answer that reaches past the
/// input, or that claims a tag of no bytes, is taken for bytes that are not
/// XML.
pub open spec fn judged(input: Seq<u8>, token: (XmlTokenKind, Seq<u8>, usize)) -> (
    HeadKind,
    Seq<u8>,
    int,
) {
    let end = token.2 as int;
    let none = Seq::<u8>::empty();
    if input.len() == 0 {
        (HeadKind::Blank, none, 0)
    } else if starts_with_bom(input) {
        (HeadKind::Other, none, 3)
    } else if end > input.len() {
        (HeadKind::Broken, none, 1)
    } else {
        match token.0 {
            XmlTokenKind::Start => if end > 0 {
                (HeadKind::Start, token.1, end)
            } else {
                (HeadKind::Broken, none, 1)
            },
            XmlTokenKind::Empty => if end > 0 {
                (HeadKind::Empty, token.1, end)
            } else {
                (HeadKind::Broken, none, 1)
            },
            XmlTokenKind::End => if end > 0 && input[end - 1] == 0x3Eu8 {
                (HeadKind::End, token.1, end)
            } else {
                (HeadKind::Partial, none, 0)
            },
            XmlTokenKind::Other => if end > 0 && input[end - 1] == 0x3Eu8 {
                (HeadKind::Other, none, end)
            } else {
                (HeadKind::Partial, none, 0)
            },
            XmlTokenKind::Text => if 0 < end < input.len() && input[end] == 0x3Cu8 {
                (HeadKind::Text, token.1, end)
            } else {
                (HeadKind::Partial, none, 0)
            },
            XmlTokenKind::Eof => if end > 0 && input[end - 1] == 0x3Cu8 {
                (HeadKind::Partial, none, 0)
            } else {
                (HeadKind::Blank, none, input.len() as int)
            },
            XmlTokenKind::Incomplete => (HeadKind::Partial, none, 0),
            XmlTokenKind::Malformed => (HeadKind::Broken, none, if end > 0 {
                end
            } else {
                1
            }),
        }
    }
}

/// The token at the head of `input`: what [`judged`] makes of the tokenizer's
/// answer for `input`.
pub open spec fn head_of(input: Seq<u8>) -> (HeadKind, Seq<u8>, int) {
    judged(input, xml_token(input))
}

/// Whether a token of this kind takes bytes from the input.
pub open spec fn kind_advances(kind: HeadKind) -> bool {
    kind != HeadKind::Blank && kind != HeadKind::Partial
}

/// A token never reaches past the input, and every kind but `Blank` and
/// `Partial` takes at least one byte.
pub proof fn lemma_head_span(input: Seq<u8>)
    ensures
        0 <= head_of(input).2 <= input.len(),
        kind_advances(head_of(input).0) ==> head_of(input).2 > 0,
        head_of(input).0 == HeadKind::Partial ==> head_of(input).2 == 0,
        head_of(input).0 == HeadKind::Blank ==> head_of(input).2 == input.len(),
{
}

/// Judges an answer of the tokenizer for `input`, as [`judged`] says.
pub fn judge(input: &[u8], token: XmlToken) -> (r: Head)
    ensures
        (r.kind, r.content@, r.span as int) == judged(
            input@,
            (token.kind, token.content@, token.end),
        ),
        r.span <= input@.len(),
        kind_advances(r.kind) ==> r.span > 0,
{
    let len = input.len();
    if len == 0 {
        return Head { kind: HeadKind::Blank, content: Vec::new(), span: 0 };
    }
    if len >= 3 && input[0] == 0xEFu8 && input[1] == 0xBBu8 && input[2] == 0xBFu8 {
        return Head { kind: HeadKind::Other, content: Vec::new(), span: 3 };
    }
    let end = token.end;
    if end > len {
        return Head { kind: HeadKind::Broken, content: Vec::new(), span: 1 };
    }
    let last: u8 = if end > 0 {
        input[end - 1]
    } else {
        0u8
    };
    match token.kind {
        XmlTokenKind::Start => {
            if end > 0 {
                Head { kind: HeadKind::Start, content: token.content, span: end }
            } else {
                Head { kind: HeadKind::Broken, content: Vec::new(), span: 1 }
            }
        },
        XmlTokenKind::Empty => {
            if end > 0 {
                Head { kind: HeadKind::Empty, content: token.content, span: end }
            } else {
                Head { kind: HeadKind::Broken, content: Vec::new(), span: 1 }
            }
        },
        XmlTokenKind::End => {
            if end > 0 && last == 0x3Eu8 {
                Head { kind: HeadKind::End, content: token.content, span: end }
            } else {
                Head { kind: HeadKind::Partial, content: Vec::new(), span: 0 }
            }
        },
        XmlTokenKind::Other => {
            if end > 0 && last == 0x3Eu8 {
                Head { kind: HeadKind::Other, content: Vec::new(), span: end }
            } else {
                Head { kind: HeadKind::Partial, content: Vec::new(), span: 0 }
            }
        },
        XmlTokenKind::Text => {
            if 0 < end && end < len && input[end] == 0x3Cu8 {
                Head { kind: HeadKind::Text, content: token.content, span: end }
            } else {
                Head { kind: HeadKind::Partial, content: Vec::new(), span: 0 }
            }
        },
        XmlTokenKind::Eof => {
            if end > 0 && last == 0x3Cu8 {
                Head { kind: HeadKind::Partial, content: Vec::new(), span: 0 }
            } else {
                Head { kind: HeadKind::Blank, content: Vec::new(), span: len }
            }
        },
        XmlTokenKind::Incomplete => Head { kind: HeadKind::Partial, content: Vec::new(), span: 0 },
        XmlTokenKind::Malformed => {
            if end > 0 {
                Head { kind: HeadKind::Broken, content: Vec::new(), span: end }
            } else {
                Head { kind: HeadKind::Broken, content: Vec::new(), span: 1 }
            }
        },
    }
}

/// Reads the token at the head of `input`.
pub fn take_head(input: &[u8]) -> (r: Head)
    ensures
        (r.kind, r.content@, r.span as int) == head_of(input@),
        r.span <= input@.len(),
        kind_advances(r.kind) ==> r.span > 0,
{
    judge(input, read_token(input))
}

} // verus!
