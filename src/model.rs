//! The document tree: nodes, marks and the attributes that each kind carries.
use vstd::prelude::*;

use crate::json::JsonNumber;

verus! {

/// One node of a document. Each variant has a fixed set of fields, and is
/// named in JSON by the `type` member (`blockquote`, `bulletList`, ...).
#[derive(Debug, PartialEq)]
#[allow(inconsistent_fields)]
pub enum Node {
    Blockquote { content: Vec<Node> },
    BulletList { content: Vec<Node> },
    CodeBlock { content: Option<Vec<Node>>, attrs: Option<CodeBlockAttrs> },
    Date { attrs: DateAttrs },
    Doc { version: i8, content: Vec<Node> },
    Emoji { attrs: EmojiAttrs },
    Expand { content: Vec<Node>, attrs: ExpandAttrs, marks: Option<Vec<Mark>> },
    HardBreak { attrs: Option<HardBreakAttrs> },
    Heading { content: Vec<Node>, attrs: HeadingAttrs },
    InlineCard { attrs: InlineCardAttrs },
    ListItem { content: Vec<Node> },
    Media { attrs: MediaAttrs },
    MediaGroup { content: Vec<Node> },
    MediaSingle { content: Vec<Node>, attrs: MediaSingleAttrs },
    Mention { attrs: MentionAttrs },
    NestedExpand { content: Vec<Node>, attrs: ExpandAttrs },
    OrderedList { content: Vec<Node>, attrs: Option<OrderedListAttrs> },
    Panel { content: Vec<Node>, attrs: PanelAttrs },
    Paragraph { content: Vec<Node>, attrs: Option<ParagraphAttrs> },
    Rule,
    Status { attrs: StatusAttrs },
    Table { content: Vec<Node>, attrs: Option<TableAttrs> },
    TableCell { content: Vec<Node>, attrs: Option<TableCellAttrs> },
    TableHeader { content: Vec<Node>, attrs: Option<TableCellAttrs> },
    TableRow { content: Vec<Node> },
    Text { text: String, marks: Option<Vec<Mark>> },
}

/// An inline annotation on a text-like node.
#[derive(Debug, PartialEq)]
#[allow(inconsistent_fields)]
pub enum Mark {
    BackgroundColor { attrs: ColorAttrs },
    Code,
    Em,
    Link { attrs: LinkAttrs },
    Strike,
    Strong,
    SubSup { attrs: SubSupAttrs },
    TextColor { attrs: ColorAttrs },
    Underline,
}

/// A colour in HTML hexadecimal notation (`#daa520`).
#[derive(Debug, PartialEq)]
pub struct ColorAttrs {
    pub color: String,
}

#[derive(Debug, PartialEq)]
pub struct CodeBlockAttrs {
    pub language: String,
}

/// A date as the text of a Unix timestamp in seconds.
#[derive(Debug, PartialEq)]
pub struct DateAttrs {
    pub timestamp: String,
}

/// A standard emoji has no `id`; an organisation's or a customer's own
/// emoji has one.
#[derive(Debug, PartialEq)]
pub struct EmojiAttrs {
    pub short_name: String,
    pub id: Option<String>,
    pub text: Option<String>,
}

#[derive(Debug, PartialEq)]
pub struct ExpandAttrs {
    pub title: String,
}

#[derive(Debug, PartialEq)]
pub struct HardBreakAttrs {
    pub text: String,
}

#[derive(Debug, PartialEq)]
pub struct HeadingAttrs {
    pub level: i8,
    pub local_id: Option<String>,
}

#[derive(Debug, PartialEq)]
pub struct InlineCardAttrs {
    pub data: Option<String>,
    pub url: Option<String>,
}

#[derive(Debug, PartialEq)]
pub struct LinkAttrs {
    pub collection: Option<String>,
    pub href: String,
    pub id: Option<String>,
    pub occurrence_key: Option<String>,
    pub title: Option<String>,
}

/// Attributes of a media node. `type_` is written `type` in JSON, one level
/// below the node's own discriminator.
#[derive(Debug, PartialEq)]
pub struct MediaAttrs {
    pub type_: String,
    pub width: Option<u32>,
    pub height: Option<u32>,
    pub id: String,
    pub collection: String,
    pub occurrence_key: Option<String>,
}

/// `width` is a number between 0 and 100, kept as JSON gave it.
#[derive(Debug, PartialEq)]
pub struct MediaSingleAttrs {
    pub layout: String,
    pub width: Option<JsonNumber>,
    pub width_type: Option<String>,
}

#[derive(Debug, PartialEq)]
pub struct MentionAttrs {
    pub id: String,
    pub text: Option<String>,
    pub user_type: Option<String>,
}

#[derive(Debug, PartialEq)]
pub struct OrderedListAttrs {
    pub order: u16,
}

#[derive(Debug, PartialEq)]
pub struct PanelAttrs {
    pub panel_type: String,
}

#[derive(Debug, PartialEq)]
pub struct ParagraphAttrs {
    pub local_id: String,
}

#[derive(Debug, PartialEq)]
pub struct StatusAttrs {
    pub local_id: Option<String>,
    pub text: String,
    pub color: String,
}

#[derive(Debug, PartialEq)]
pub struct TableAttrs {
    pub display_mode: Option<String>,
    pub is_number_column_enabled: Option<bool>,
    pub layout: Option<String>,
    pub width: Option<u16>,
}

#[derive(Debug, PartialEq)]
pub struct TableCellAttrs {
    pub background: Option<String>,
    pub colspan: Option<u16>,
    pub colwidth: Option<Vec<u16>>,
    pub rowspan: Option<u16>,
}

/// The position of a sub/superscript mark, written `{"type": "sup"}` or
/// `{"type": "sub"}`.
#[derive(Debug, PartialEq)]
pub enum SubSupAttrs {
    Sup,
    Sub,
}

/// Two trees are the same: the same variants and fields throughout, with
/// sequences compared by their elements.
pub open spec fn same_node(a: Node, b: Node) -> bool
    decreases a,
{
    match a {
        Node::Blockquote { content } => {
            &&& b matches Node::Blockquote { content: c2 }
            &&& same_nodes(content, c2)
        },
        Node::BulletList { content } => {
            &&& b matches Node::BulletList { content: c2 }
            &&& same_nodes(content, c2)
        },
        Node::CodeBlock { content, attrs } => {
            &&& b matches Node::CodeBlock { content: c2, attrs: a2 }
            &&& (match (content, c2) { (None, None) => true, (Some(x), Some(y)) => same_nodes(x, y), _ => false })
            &&& attrs == a2
        },
        Node::Date { attrs } => {
            &&& b matches Node::Date { attrs: a2 }
            &&& attrs == a2
        },
        Node::Doc { version, content } => {
            &&& b matches Node::Doc { version: v2, content: c2 }
            &&& version == v2
            &&& same_nodes(content, c2)
        },
        Node::Emoji { attrs } => {
            &&& b matches Node::Emoji { attrs: a2 }
            &&& attrs == a2
        },
        Node::Expand { content, attrs, marks } => {
            &&& b matches Node::Expand { content: c2, attrs: a2, marks: m2 }
            &&& same_nodes(content, c2)
            &&& attrs == a2
            &&& same_marks(marks, m2)
        },
        Node::HardBreak { attrs } => {
            &&& b matches Node::HardBreak { attrs: a2 }
            &&& attrs == a2
        },
        Node::Heading { content, attrs } => {
            &&& b matches Node::Heading { content: c2, attrs: a2 }
            &&& same_nodes(content, c2)
            &&& attrs == a2
        },
        Node::InlineCard { attrs } => {
            &&& b matches Node::InlineCard { attrs: a2 }
            &&& attrs == a2
        },
        Node::ListItem { content } => {
            &&& b matches Node::ListItem { content: c2 }
            &&& same_nodes(content, c2)
        },
        Node::Media { attrs } => {
            &&& b matches Node::Media { attrs: a2 }
            &&& attrs == a2
        },
        Node::MediaGroup { content } => {
            &&& b matches Node::MediaGroup { content: c2 }
            &&& same_nodes(content, c2)
        },
        Node::MediaSingle { content, attrs } => {
            &&& b matches Node::MediaSingle { content: c2, attrs: a2 }
            &&& same_nodes(content, c2)
            &&& attrs == a2
        },
        Node::Mention { attrs } => {
            &&& b matches Node::Mention { attrs: a2 }
            &&& attrs == a2
        },
        Node::NestedExpand { content, attrs } => {
            &&& b matches Node::NestedExpand { content: c2, attrs: a2 }
            &&& same_nodes(content, c2)
            &&& attrs == a2
        },
        Node::OrderedList { content, attrs } => {
            &&& b matches Node::OrderedList { content: c2, attrs: a2 }
            &&& same_nodes(content, c2)
            &&& attrs == a2
        },
        Node::Panel { content, attrs } => {
            &&& b matches Node::Panel { content: c2, attrs: a2 }
            &&& same_nodes(content, c2)
            &&& attrs == a2
        },
        Node::Paragraph { content, attrs } => {
            &&& b matches Node::Paragraph { content: c2, attrs: a2 }
            &&& same_nodes(content, c2)
            &&& attrs == a2
        },
        Node::Rule => b is Rule,
        Node::Status { attrs } => {
            &&& b matches Node::Status { attrs: a2 }
            &&& attrs == a2
        },
        Node::Table { content, attrs } => {
            &&& b matches Node::Table { content: c2, attrs: a2 }
            &&& same_nodes(content, c2)
            &&& attrs == a2
        },
        Node::TableCell { content, attrs } => {
            &&& b matches Node::TableCell { content: c2, attrs: a2 }
            &&& same_nodes(content, c2)
            &&& (match (attrs, a2) { (None, None) => true, (Some(x), Some(y)) => same_cell_attrs(x, y), _ => false })
        },
        Node::TableHeader { content, attrs } => {
            &&& b matches Node::TableHeader { content: c2, attrs: a2 }
            &&& same_nodes(content, c2)
            &&& (match (attrs, a2) { (None, None) => true, (Some(x), Some(y)) => same_cell_attrs(x, y), _ => false })
        },
        Node::TableRow { content } => {
            &&& b matches Node::TableRow { content: c2 }
            &&& same_nodes(content, c2)
        },
        Node::Text { text, marks } => {
            &&& b matches Node::Text { text: t2, marks: m2 }
            &&& text == t2
            &&& same_marks(marks, m2)
        },
    }
}

/// Two sequences of trees are the same, element by element.
pub open spec fn same_nodes(a: Vec<Node>, b: Vec<Node>) -> bool
    decreases a,
{
    &&& a@.len() == b@.len()
    &&& forall|i: int| 0 <= i < a@.len() ==> same_node(#[trigger] a@[i], b@[i])
}

/// Two mark lists are the same.
pub open spec fn same_marks(a: Option<Vec<Mark>>, b: Option<Vec<Mark>>) -> bool {
    match (a, b) {
        (None, None) => true,
        (Some(x), Some(y)) => x@ == y@,
        _ => false,
    }
}

/// Two table cell attribute records are the same.
pub open spec fn same_cell_attrs(a: TableCellAttrs, b: TableCellAttrs) -> bool {
    &&& a.background == b.background
    &&& a.colspan == b.colspan
    &&& a.rowspan == b.rowspan
    &&& match (a.colwidth, b.colwidth) {
        (None, None) => true,
        (Some(x), Some(y)) => x@ == y@,
        _ => false,
    }
}

/// Marks are either absent or a non-empty sequence: an empty sequence and
/// an absent key read the same.
pub open spec fn marks_wf(marks: Option<Vec<Mark>>) -> bool {
    marks matches Some(v) ==> v@.len() > 0
}

/// A node whose marks, and those of all its descendants, are in the one
/// form that decoding produces.
pub open spec fn node_wf(n: Node) -> bool
    decreases n,
{
    match n {
        Node::Blockquote { content } => forall|i: int| 0 <= i < content@.len() ==> node_wf(#[trigger] content@[i]),
        Node::BulletList { content } => forall|i: int| 0 <= i < content@.len() ==> node_wf(#[trigger] content@[i]),
        Node::Doc { content, .. } => forall|i: int| 0 <= i < content@.len() ==> node_wf(#[trigger] content@[i]),
        Node::Expand { content, marks, .. } => marks_wf(marks) && forall|i: int| 0 <= i < content@.len() ==> node_wf(#[trigger] content@[i]),
        Node::Heading { content, .. } => forall|i: int| 0 <= i < content@.len() ==> node_wf(#[trigger] content@[i]),
        Node::ListItem { content } => forall|i: int| 0 <= i < content@.len() ==> node_wf(#[trigger] content@[i]),
        Node::MediaGroup { content } => forall|i: int| 0 <= i < content@.len() ==> node_wf(#[trigger] content@[i]),
        Node::MediaSingle { content, .. } => forall|i: int| 0 <= i < content@.len() ==> node_wf(#[trigger] content@[i]),
        Node::NestedExpand { content, .. } => forall|i: int| 0 <= i < content@.len() ==> node_wf(#[trigger] content@[i]),
        Node::OrderedList { content, .. } => forall|i: int| 0 <= i < content@.len() ==> node_wf(#[trigger] content@[i]),
        Node::Panel { content, .. } => forall|i: int| 0 <= i < content@.len() ==> node_wf(#[trigger] content@[i]),
        Node::Paragraph { content, .. } => forall|i: int| 0 <= i < content@.len() ==> node_wf(#[trigger] content@[i]),
        Node::Table { content, .. } => forall|i: int| 0 <= i < content@.len() ==> node_wf(#[trigger] content@[i]),
        Node::TableCell { content, .. } => forall|i: int| 0 <= i < content@.len() ==> node_wf(#[trigger] content@[i]),
        Node::TableHeader { content, .. } => forall|i: int| 0 <= i < content@.len() ==> node_wf(#[trigger] content@[i]),
        Node::TableRow { content } => forall|i: int| 0 <= i < content@.len() ==> node_wf(#[trigger] content@[i]),
        Node::CodeBlock { content, .. } => content matches Some(c) ==> forall|i: int| 0 <= i < c@.len() ==> node_wf(#[trigger] c@[i]),
        Node::Text { marks, .. } => marks_wf(marks),
        _ => true,
    }
}

} // verus!
