//! The events of an XML document, as plain values.

use vstd::prelude::*;

verus! {

/// A qualified XML name.
#[derive(Debug, Clone, PartialEq, Eq)]
pub struct Name {
    /// The local part, `rect` in `svg:rect`.
    pub local_name: String,
    /// The namespace URI that the prefix is bound to, if any.
    pub namespace: Option<String>,
    /// The prefix, `svg` in `svg:rect`.
    pub prefix: Option<String>,
}

/// The mathematical value of a [`Name`].
pub struct NameView {
    pub local_name: Seq<char>,
    pub namespace: Option<Seq<char>>,
    pub prefix: Option<Seq<char>>,
}

impl DeepView for Name {
    type V = NameView;

    open spec fn deep_view(&self) -> NameView {
        NameView {
            local_name: self.local_name@,
            namespace: self.namespace.deep_view(),
            prefix: self.prefix.deep_view(),
        }
    }
}

impl View for Name {
    type V = NameView;

    open spec fn view(&self) -> NameView {
        self.deep_view()
    }
}

/// An attribute of an element: a qualified name and a value.
#[derive(Debug, Clone, PartialEq, Eq)]
pub struct Attribute {
    pub name: Name,
    pub value: String,
}

/// The mathematical value of an [`Attribute`].
pub struct AttributeView {
    pub name: NameView,
    pub value: Seq<char>,
}

impl DeepView for Attribute {
    type V = AttributeView;

    open spec fn deep_view(&self) -> AttributeView {
        AttributeView { name: self.name@, value: self.value@ }
    }
}

impl View for Attribute {
    type V = AttributeView;

    open spec fn view(&self) -> AttributeView {
        self.deep_view()
    }
}

/// The version in an XML declaration.
#[derive(Debug, Clone, Copy, PartialEq, Eq, Structural)]
pub enum XmlVersion {
    /// XML 1.0.
    Version10,
    /// XML 1.1.
    Version11,
}

/// One event of a document, in the order in which a pull parser meets them.
#[derive(Debug, Clone, PartialEq, Eq)]
pub enum Event {
    /// The XML declaration, or its defaults where the document has none.
    StartDocument { version: XmlVersion, encoding: String, standalone: Option<bool> },
    /// The end of the document.
    EndDocument,
    /// A processing instruction: its target and its data.
    ProcessingInstruction { target: String, data: Option<String> },
    /// An opening tag, with its attributes in document order and the
    /// namespace bindings in scope, as pairs of prefix and URI.
    StartElement { name: Name, attributes: Vec<Attribute>, namespace: Vec<(String, String)> },
    /// A closing tag.
    EndElement { name: Name },
    /// A CDATA section.
    CData(String),
    /// A comment.
    Comment(String),
    /// Character data.
    Characters(String),
    /// Character data that is white space only.
    Whitespace(String),
}

/// The mathematical value of an [`Event`].
pub enum EventView {
    StartDocument { version: XmlVersion, encoding: Seq<char>, standalone: Option<bool> },
    EndDocument,
    ProcessingInstruction { target: Seq<char>, data: Option<Seq<char>> },
    StartElement {
        name: NameView,
        attributes: Seq<AttributeView>,
        namespace: Seq<(Seq<char>, Seq<char>)>,
    },
    EndElement { name: NameView },
    CData(Seq<char>),
    Comment(Seq<char>),
    Characters(Seq<char>),
    Whitespace(Seq<char>),
}

impl DeepView for Event {
    type V = EventView;

    open spec fn deep_view(&self) -> EventView {
        match self {
            Event::StartDocument { version, encoding, standalone } => EventView::StartDocument {
                version: *version,
                encoding: encoding@,
                standalone: *standalone,
            },
            Event::EndDocument => EventView::EndDocument,
            Event::ProcessingInstruction { target, data } => EventView::ProcessingInstruction {
                target: target@,
                data: data.deep_view(),
            },
            Event::StartElement { name, attributes, namespace } => EventView::StartElement {
                name: name@,
                attributes: attributes.deep_view(),
                namespace: namespace.deep_view(),
            },
            Event::EndElement { name } => EventView::EndElement { name: name@ },
            Event::CData(content) => EventView::CData(content@),
            Event::Comment(content) => EventView::Comment(content@),
            Event::Characters(content) => EventView::Characters(content@),
            Event::Whitespace(content) => EventView::Whitespace(content@),
        }
    }
}

impl View for Event {
    type V = EventView;

    open spec fn view(&self) -> EventView {
        self.deep_view()
    }
}

} // verus!
