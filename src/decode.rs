//! Reading a generic JSON value as a document tree.
use vstd::prelude::*;

use crate::attrs::{
    code_block_attrs_of, color_attrs_of, date_attrs_of, emoji_attrs_of, expand_attrs_of,
    hard_break_attrs_of, heading_attrs_of, inline_card_attrs_of, link_attrs_of, media_attrs_of,
    media_single_attrs_of, mention_attrs_of, ordered_list_attrs_of, panel_attrs_of, paragraph_attrs_of,
    read_code_block_attrs, read_color_attrs, read_date_attrs, read_emoji_attrs, read_expand_attrs,
    read_hard_break_attrs, read_heading_attrs, read_inline_card_attrs, read_link_attrs, read_media_attrs,
    read_media_single_attrs, read_mention_attrs, read_ordered_list_attrs, read_panel_attrs,
    read_paragraph_attrs, read_status_attrs, read_sub_sup_attrs, read_table_attrs, read_table_cell_attrs,
    status_attrs_of, sub_sup_attrs_of, table_attrs_of, table_cell_attrs_of,
};
use crate::error::{error_at, DecodeError, DecodeErrorKind, PathStep};
use crate::fields::{absent, blames_member, names_variant, check_keys, int_field, int_of, mismatch, missing, str_field, str_of};
use crate::json::{JsonNumber, find_member, first_unexpected, keys_within, member, same_text, JsonValue};
use crate::model::{Mark, Node};
use crate::names::lemma_names;

verus! {

/// The mark variant that a `type` text names, compared in a fixed order.
pub open spec fn mark_tag_matches(t: Seq<char>, m: Mark) -> bool {
    if t == "backgroundColor"@ {
        m is BackgroundColor
    } else if t == "code"@ {
        m is Code
    } else if t == "em"@ {
        m is Em
    } else if t == "link"@ {
        m is Link
    } else if t == "strike"@ {
        m is Strike
    } else if t == "strong"@ {
        m is Strong
    } else if t == "subSup"@ {
        m is SubSup
    } else if t == "textColor"@ {
        m is TextColor
    } else if t == "underline"@ {
        m is Underline
    } else {
        false
    }
}

/// `j` reads as the mark `m`.
pub open spec fn mark_of(j: JsonValue, m: Mark) -> bool {
    &&& j matches JsonValue::Object(o)
    &&& member(o@, "type"@) matches Some(JsonValue::Str(t))
    &&& mark_tag_matches(t@, m)
    &&& match m {
        Mark::BackgroundColor { attrs } => keys_within(o@, seq!["type", "attrs"]) && (member(o@, "attrs"@) matches Some(a) && color_attrs_of(a, attrs)),
        Mark::Code => keys_within(o@, seq!["type"]),
        Mark::Em => keys_within(o@, seq!["type"]),
        Mark::Link { attrs } => keys_within(o@, seq!["type", "attrs"]) && (member(o@, "attrs"@) matches Some(a) && link_attrs_of(a, attrs)),
        Mark::Strike => keys_within(o@, seq!["type"]),
        Mark::Strong => keys_within(o@, seq!["type"]),
        Mark::SubSup { attrs } => keys_within(o@, seq!["type", "attrs"]) && (member(o@, "attrs"@) matches Some(a) && sub_sup_attrs_of(a, attrs)),
        Mark::TextColor { attrs } => keys_within(o@, seq!["type", "attrs"]) && (member(o@, "attrs"@) matches Some(a) && color_attrs_of(a, attrs)),
        Mark::Underline => keys_within(o@, seq!["type"]),
    }
}

/// `v` reads as the marks `ms`. An absent member, `null` and `[]` all read
/// as no marks.
pub open spec fn marks_of(v: Option<JsonValue>, ms: Option<Vec<Mark>>) -> bool {
    match ms {
        None => absent(v) || (v matches Some(JsonValue::Array(a)) && a@.len() == 0),
        Some(ms) => {
            &&& ms@.len() > 0
            &&& v matches Some(JsonValue::Array(a))
            &&& a@.len() == ms@.len()
            &&& forall|i: int| 0 <= i < a@.len() ==> mark_of(a@[i], #[trigger] ms@[i])
        },
    }
}

/// `v` is an array whose elements read as the nodes `c`, in order.
pub open spec fn nodes_of(v: Option<JsonValue>, c: Vec<Node>) -> bool
    decreases c,
{
    &&& v matches Some(JsonValue::Array(a))
    &&& a@.len() == c@.len()
    &&& forall|i: int| 0 <= i < a@.len() ==> decodes(a@[i], #[trigger] c@[i])
}

/// The node variant that a `type` text names, compared in a fixed order.
pub open spec fn tag_matches(t: Seq<char>, n: Node) -> bool {
    if t == "blockquote"@ {
        n is Blockquote
    } else if t == "bulletList"@ {
        n is BulletList
    } else if t == "codeBlock"@ {
        n is CodeBlock
    } else if t == "date"@ {
        n is Date
    } else if t == "doc"@ {
        n is Doc
    } else if t == "emoji"@ {
        n is Emoji
    } else if t == "expand"@ {
        n is Expand
    } else if t == "hardBreak"@ {
        n is HardBreak
    } else if t == "heading"@ {
        n is Heading
    } else if t == "inlineCard"@ {
        n is InlineCard
    } else if t == "listItem"@ {
        n is ListItem
    } else if t == "media"@ {
        n is Media
    } else if t == "mediaGroup"@ {
        n is MediaGroup
    } else if t == "mediaSingle"@ {
        n is MediaSingle
    } else if t == "mention"@ {
        n is Mention
    } else if t == "nestedExpand"@ {
        n is NestedExpand
    } else if t == "orderedList"@ {
        n is OrderedList
    } else if t == "panel"@ {
        n is Panel
    } else if t == "paragraph"@ {
        n is Paragraph
    } else if t == "rule"@ {
        n is Rule
    } else if t == "status"@ {
        n is Status
    } else if t == "table"@ {
        n is Table
    } else if t == "tableCell"@ {
        n is TableCell
    } else if t == "tableHeader"@ {
        n is TableHeader
    } else if t == "tableRow"@ {
        n is TableRow
    } else if t == "text"@ {
        n is Text
    } else {
        false
    }
}

/// The keys that an object of the node's variant may hold.
pub open spec fn node_keys(n: Node) -> Seq<&'static str> {
    match n {
        Node::Blockquote { .. } => seq!["type", "content"],
        Node::BulletList { .. } => seq!["type", "content"],
        Node::CodeBlock { .. } => seq!["type", "content", "attrs"],
        Node::Date { .. } => seq!["type", "attrs"],
        Node::Doc { .. } => seq!["type", "version", "content"],
        Node::Emoji { .. } => seq!["type", "attrs"],
        Node::Expand { .. } => seq!["type", "content", "attrs", "marks"],
        Node::HardBreak { .. } => seq!["type", "attrs"],
        Node::Heading { .. } => seq!["type", "content", "attrs"],
        Node::InlineCard { .. } => seq!["type", "attrs"],
        Node::ListItem { .. } => seq!["type", "content"],
        Node::Media { .. } => seq!["type", "attrs"],
        Node::MediaGroup { .. } => seq!["type", "content"],
        Node::MediaSingle { .. } => seq!["type", "content", "attrs"],
        Node::Mention { .. } => seq!["type", "attrs"],
        Node::NestedExpand { .. } => seq!["type", "content", "attrs"],
        Node::OrderedList { .. } => seq!["type", "content", "attrs"],
        Node::Panel { .. } => seq!["type", "content", "attrs"],
        Node::Paragraph { .. } => seq!["type", "content", "attrs"],
        Node::Rule => seq!["type"],
        Node::Status { .. } => seq!["type", "attrs"],
        Node::Table { .. } => seq!["type", "content", "attrs"],
        Node::TableCell { .. } => seq!["type", "content", "attrs"],
        Node::TableHeader { .. } => seq!["type", "content", "attrs"],
        Node::TableRow { .. } => seq!["type", "content"],
        Node::Text { .. } => seq!["type", "text", "marks"],
    }
}

/// `j` reads as the node `n`.
pub open spec fn decodes(j: JsonValue, n: Node) -> bool
    decreases n,
{
    &&& j matches JsonValue::Object(o)
    &&& member(o@, "type"@) matches Some(JsonValue::Str(t))
    &&& tag_matches(t@, n)
    &&& keys_within(o@, node_keys(n))
    &&& match n {
        Node::Blockquote { content } => nodes_of(member(o@, "content"@), content),
        Node::BulletList { content } => nodes_of(member(o@, "content"@), content),
        Node::CodeBlock { content, attrs } => {
            (match content {
                None => absent(member(o@, "content"@)),
                Some(c) => nodes_of(member(o@, "content"@), c),
            })
            && (match attrs {
                None => absent(member(o@, "attrs"@)),
                Some(x) => member(o@, "attrs"@) matches Some(a) && code_block_attrs_of(a, x),
            })
        },
        Node::Date { attrs } => (member(o@, "attrs"@) matches Some(a) && date_attrs_of(a, attrs)),
        Node::Doc { version, content } => {
            int_of(member(o@, "version"@), version as int)
            && nodes_of(member(o@, "content"@), content)
        },
        Node::Emoji { attrs } => (member(o@, "attrs"@) matches Some(a) && emoji_attrs_of(a, attrs)),
        Node::Expand { content, attrs, marks } => {
            nodes_of(member(o@, "content"@), content)
            && (member(o@, "attrs"@) matches Some(a) && expand_attrs_of(a, attrs))
            && marks_of(member(o@, "marks"@), marks)
        },
        Node::HardBreak { attrs } => (match attrs {
                None => absent(member(o@, "attrs"@)),
                Some(x) => member(o@, "attrs"@) matches Some(a) && hard_break_attrs_of(a, x),
            }),
        Node::Heading { content, attrs } => {
            nodes_of(member(o@, "content"@), content)
            && (member(o@, "attrs"@) matches Some(a) && heading_attrs_of(a, attrs))
        },
        Node::InlineCard { attrs } => (member(o@, "attrs"@) matches Some(a) && inline_card_attrs_of(a, attrs)),
        Node::ListItem { content } => nodes_of(member(o@, "content"@), content),
        Node::Media { attrs } => (member(o@, "attrs"@) matches Some(a) && media_attrs_of(a, attrs)),
        Node::MediaGroup { content } => nodes_of(member(o@, "content"@), content),
        Node::MediaSingle { content, attrs } => {
            nodes_of(member(o@, "content"@), content)
            && (member(o@, "attrs"@) matches Some(a) && media_single_attrs_of(a, attrs))
        },
        Node::Mention { attrs } => (member(o@, "attrs"@) matches Some(a) && mention_attrs_of(a, attrs)),
        Node::NestedExpand { content, attrs } => {
            nodes_of(member(o@, "content"@), content)
            && (member(o@, "attrs"@) matches Some(a) && expand_attrs_of(a, attrs))
        },
        Node::OrderedList { content, attrs } => {
            nodes_of(member(o@, "content"@), content)
            && (match attrs {
                None => absent(member(o@, "attrs"@)),
                Some(x) => member(o@, "attrs"@) matches Some(a) && ordered_list_attrs_of(a, x),
            })
        },
        Node::Panel { content, attrs } => {
            nodes_of(member(o@, "content"@), content)
            && (member(o@, "attrs"@) matches Some(a) && panel_attrs_of(a, attrs))
        },
        Node::Paragraph { content, attrs } => {
            nodes_of(member(o@, "content"@), content)
            && (match attrs {
                None => absent(member(o@, "attrs"@)),
                Some(x) => member(o@, "attrs"@) matches Some(a) && paragraph_attrs_of(a, x),
            })
        },
        Node::Rule => true,
        Node::Status { attrs } => (member(o@, "attrs"@) matches Some(a) && status_attrs_of(a, attrs)),
        Node::Table { content, attrs } => {
            nodes_of(member(o@, "content"@), content)
            && (match attrs {
                None => absent(member(o@, "attrs"@)),
                Some(x) => member(o@, "attrs"@) matches Some(a) && table_attrs_of(a, x),
            })
        },
        Node::TableCell { content, attrs } => {
            nodes_of(member(o@, "content"@), content)
            && (match attrs {
                None => absent(member(o@, "attrs"@)),
                Some(x) => member(o@, "attrs"@) matches Some(a) && table_cell_attrs_of(a, x),
            })
        },
        Node::TableHeader { content, attrs } => {
            nodes_of(member(o@, "content"@), content)
            && (match attrs {
                None => absent(member(o@, "attrs"@)),
                Some(x) => member(o@, "attrs"@) matches Some(a) && table_cell_attrs_of(a, x),
            })
        },
        Node::TableRow { content } => nodes_of(member(o@, "content"@), content),
        Node::Text { text, marks } => {
            str_of(member(o@, "text"@), text)
            && marks_of(member(o@, "marks"@), marks)
        },
    }
}

/// The path starts at an element of `a` that reads as no tree, after
/// elements that all read, and goes on from there as `located` says.
pub open spec fn fails_at(a: Seq<JsonValue>, path: Seq<PathStep>, kind: DecodeErrorKind) -> bool
    decreases path.len(), 0int,
{
    &&& path.len() > 0
    &&& path[0] matches PathStep::Index(k)
    &&& k < a.len()
    &&& forall|n: Node| !decodes(a[k as int], n)
    &&& forall|x: int| 0 <= x < k ==> reads(#[trigger] a[x])
    &&& located(a[k as int], path.drop_first(), kind)
}

/// `rest` leads from the `content` array of the object `j` to a child that
/// reads as no tree.
pub open spec fn fails_in_content(j: JsonValue, rest: Seq<PathStep>, kind: DecodeErrorKind) -> bool
    decreases rest.len(), 1int,
{
    &&& j matches JsonValue::Object(o)
    &&& member(o@, "content"@) matches Some(JsonValue::Array(a))
    &&& fails_at(a@, rest, kind)
}

/// A failure of kind `kind` at `path` below `j`: a path into `content`
/// passes through children that read as no tree; where it ends at an
/// object whose `type` names no node, the kind is `UnknownVariant` with
/// that text.
pub open spec fn located(j: JsonValue, path: Seq<PathStep>, kind: DecodeErrorKind) -> bool
    decreases path.len(), 2int,
{
    if path.len() == 0 {
        (tag_text(j) matches Some(t) ==> !node_tag_known(t)) ==> (kind matches DecodeErrorKind::UnknownVariant(u)
            && u@ == tag_or_empty(j))
    } else if path[0] == PathStep::Field("content") {
        fails_in_content(j, path.drop_first(), kind)
    } else {
        true
    }
}

/// The path starts at an element of `a` that reads as no mark, after
/// elements that all read as marks.
pub open spec fn mark_fails_at(a: Seq<JsonValue>, path: Seq<PathStep>) -> bool {
    &&& path.len() > 0
    &&& path[0] matches PathStep::Index(k)
    &&& k < a.len()
    &&& forall|m: Mark| !mark_of(a[k as int], m)
    &&& forall|x: int| 0 <= x < k ==> reads_mark(#[trigger] a[x])
}

/// Some mark reads from `j`.
pub open spec fn reads_mark(j: JsonValue) -> bool {
    exists|m: Mark| mark_of(j, m)
}

/// `rest` leads from the `marks` array of the object `j` to an element
/// that reads as no mark.
pub open spec fn fails_in_marks(j: JsonValue, rest: Seq<PathStep>) -> bool {
    &&& j matches JsonValue::Object(o)
    &&& member(o@, "marks"@) matches Some(JsonValue::Array(a))
    &&& mark_fails_at(a@, rest)
}

/// Some tree reads from `j`.
pub open spec fn reads(j: JsonValue) -> bool {
    exists|n: Node| decodes(j, n)
}

/// `t` names a node variant.
pub open spec fn node_tag_known(t: Seq<char>) -> bool {
    ||| t == "blockquote"@
    ||| t == "bulletList"@
    ||| t == "codeBlock"@
    ||| t == "date"@
    ||| t == "doc"@
    ||| t == "emoji"@
    ||| t == "expand"@
    ||| t == "hardBreak"@
    ||| t == "heading"@
    ||| t == "inlineCard"@
    ||| t == "listItem"@
    ||| t == "media"@
    ||| t == "mediaGroup"@
    ||| t == "mediaSingle"@
    ||| t == "mention"@
    ||| t == "nestedExpand"@
    ||| t == "orderedList"@
    ||| t == "panel"@
    ||| t == "paragraph"@
    ||| t == "rule"@
    ||| t == "status"@
    ||| t == "table"@
    ||| t == "tableCell"@
    ||| t == "tableHeader"@
    ||| t == "tableRow"@
    ||| t == "text"@
}

/// For the variant that `t` names: its discriminator, the keys it may
/// hold, and the first field that reading looks for where that is required.
pub open spec fn tag_schema(t: Seq<char>) -> Option<(&'static str, Seq<&'static str>, Option<&'static str>)> {
    if t == "blockquote"@ {
        Some(("blockquote", seq!["type", "content"], Some("content")))
    } else if t == "bulletList"@ {
        Some(("bulletList", seq!["type", "content"], Some("content")))
    } else if t == "codeBlock"@ {
        Some(("codeBlock", seq!["type", "content", "attrs"], None))
    } else if t == "date"@ {
        Some(("date", seq!["type", "attrs"], Some("attrs")))
    } else if t == "doc"@ {
        Some(("doc", seq!["type", "version", "content"], Some("version")))
    } else if t == "emoji"@ {
        Some(("emoji", seq!["type", "attrs"], Some("attrs")))
    } else if t == "expand"@ {
        Some(("expand", seq!["type", "content", "attrs", "marks"], Some("content")))
    } else if t == "hardBreak"@ {
        Some(("hardBreak", seq!["type", "attrs"], None))
    } else if t == "heading"@ {
        Some(("heading", seq!["type", "content", "attrs"], Some("content")))
    } else if t == "inlineCard"@ {
        Some(("inlineCard", seq!["type", "attrs"], Some("attrs")))
    } else if t == "listItem"@ {
        Some(("listItem", seq!["type", "content"], Some("content")))
    } else if t == "media"@ {
        Some(("media", seq!["type", "attrs"], Some("attrs")))
    } else if t == "mediaGroup"@ {
        Some(("mediaGroup", seq!["type", "content"], Some("content")))
    } else if t == "mediaSingle"@ {
        Some(("mediaSingle", seq!["type", "content", "attrs"], Some("content")))
    } else if t == "mention"@ {
        Some(("mention", seq!["type", "attrs"], Some("attrs")))
    } else if t == "nestedExpand"@ {
        Some(("nestedExpand", seq!["type", "content", "attrs"], Some("content")))
    } else if t == "orderedList"@ {
        Some(("orderedList", seq!["type", "content", "attrs"], Some("content")))
    } else if t == "panel"@ {
        Some(("panel", seq!["type", "content", "attrs"], Some("content")))
    } else if t == "paragraph"@ {
        Some(("paragraph", seq!["type", "content", "attrs"], Some("content")))
    } else if t == "rule"@ {
        Some(("rule", seq!["type"], None))
    } else if t == "status"@ {
        Some(("status", seq!["type", "attrs"], Some("attrs")))
    } else if t == "table"@ {
        Some(("table", seq!["type", "content", "attrs"], Some("content")))
    } else if t == "tableCell"@ {
        Some(("tableCell", seq!["type", "content", "attrs"], Some("content")))
    } else if t == "tableHeader"@ {
        Some(("tableHeader", seq!["type", "content", "attrs"], Some("content")))
    } else if t == "tableRow"@ {
        Some(("tableRow", seq!["type", "content"], Some("content")))
    } else if t == "text"@ {
        Some(("text", seq!["type", "text", "marks"], Some("text")))
    } else {
        None
    }
}

/// A first field that has the shape its variant reads: `content` an
/// array, `attrs` an object, `version` an integer, `text` a string.
pub open spec fn first_field_shaped(f: &str, x: JsonValue) -> bool {
    if f@ == "content"@ {
        x is Array
    } else if f@ == "attrs"@ {
        x is Object
    } else if f@ == "version"@ {
        x matches JsonValue::Number(JsonNumber::Int(i)) && -128 <= i <= 127
    } else {
        x is Str
    }
}

/// The text of an object's `type` member, where it is a string.
pub open spec fn tag_text(j: JsonValue) -> Option<Seq<char>> {
    match j {
        JsonValue::Object(o) => match member(o@, "type"@) {
            Some(JsonValue::Str(t)) => Some(t@),
            _ => None,
        },
        _ => None,
    }
}

/// The `type` text of an object, or the empty text where there is none.
pub open spec fn tag_or_empty(j: JsonValue) -> Seq<char> {
    match tag_text(j) {
        Some(t) => t,
        None => Seq::empty(),
    }
}

/// Where `e` is about `j` itself, a missing field has no member in it and a
/// mismatched field has one.
pub open spec fn blames(j: JsonValue, e: DecodeError) -> bool {
    match j {
        JsonValue::Object(o) => blames_member(o@, e),
        _ => e.kind is UnknownVariant,
    }
}

/// The index of a required member.
fn req_member(o: &Vec<(String, JsonValue)>, variant: &'static str, key: &'static str) -> (r: Result<usize, DecodeError>)
    ensures
        r matches Err(e) ==> e.kind == (DecodeErrorKind::MissingField { variant, field: key }) && e.path@.len() == 0,
        r matches Err(e) ==> blames_member(o@, e),
        r matches Err(e) ==> !(e.kind is MalformedInput),
        match r {
            Ok(i) => i < o@.len() && member(o@, key@) == Some(o@[i as int].1),
            Err(_) => member(o@, key@) is None,
        },
{
    match find_member(o, key) {
        Some(i) => Ok(i),
        None => Err(missing(variant, key)),
    }
}

/// The index of an optional member that is present and not `null`.
fn opt_member(o: &Vec<(String, JsonValue)>, key: &'static str) -> (r: Option<usize>)
    ensures
        match r {
            Some(i) => i < o@.len() && member(o@, key@) == Some(o@[i as int].1) && o@[i as int].1 != JsonValue::Null,
            None => absent(member(o@, key@)),
        },
{
    match find_member(o, key) {
        Some(i) => match &o[i].1 {
            JsonValue::Null => None,
            _ => Some(i),
        },
        None => None,
    }
}

/// The members of an object and its `type` text.
fn tagged(j: &JsonValue) -> (r: Option<(&Vec<(String, JsonValue)>, &String)>)
    ensures
        match r {
            Some((o, t)) => *j == JsonValue::Object(*o) && member(o@, "type"@) == Some(JsonValue::Str(*t)),
            None => tag_text(*j) is None,
        },
{
    match j {
        JsonValue::Object(o) => match find_member(o, "type") {
            Some(i) => match &o[i].1 {
                JsonValue::Str(t) => Some((o, t)),
                _ => None,
            },
            None => None,
        },
        _ => None,
    }
}

/// Reads one mark.
pub fn read_mark(j: &JsonValue) -> (r: Result<Mark, DecodeError>)
    ensures
        r matches Err(e) ==> !(e.kind is MalformedInput),
        match r {
            Ok(m) => mark_of(*j, m),
            Err(_) => forall|m: Mark| !mark_of(*j, m),
        },
{
    let (o, tag) = match tagged(j) {
        Some(p) => p,
        None => return Err(error_at(DecodeErrorKind::UnknownVariant(String::new()))),
    };
    if same_text(tag, "backgroundColor") {
        let keys = vec!["type", "attrs"];
        assert(keys@ == seq!["type", "attrs"]);
        if let Err(e) = check_keys(o, "backgroundColor", keys) {
            return Err(e);
        }
        let attrs = match req_member(o, "backgroundColor", "attrs") {
            Ok(i) => match read_color_attrs(&o[i].1, "backgroundColor") {
                Ok(a) => a,
                Err(e) => return Err(e.within(PathStep::Field("attrs"))),
            },
            Err(e) => return Err(e),
        };
        Ok(Mark::BackgroundColor { attrs })
    } else if same_text(tag, "code") {
        let keys = vec!["type"];
        assert(keys@ == seq!["type"]);
        if let Err(e) = check_keys(o, "code", keys) {
            return Err(e);
        }
        Ok(Mark::Code)
    } else if same_text(tag, "em") {
        let keys = vec!["type"];
        assert(keys@ == seq!["type"]);
        if let Err(e) = check_keys(o, "em", keys) {
            return Err(e);
        }
        Ok(Mark::Em)
    } else if same_text(tag, "link") {
        let keys = vec!["type", "attrs"];
        assert(keys@ == seq!["type", "attrs"]);
        if let Err(e) = check_keys(o, "link", keys) {
            return Err(e);
        }
        let attrs = match req_member(o, "link", "attrs") {
            Ok(i) => match read_link_attrs(&o[i].1, "link") {
                Ok(a) => a,
                Err(e) => return Err(e.within(PathStep::Field("attrs"))),
            },
            Err(e) => return Err(e),
        };
        Ok(Mark::Link { attrs })
    } else if same_text(tag, "strike") {
        let keys = vec!["type"];
        assert(keys@ == seq!["type"]);
        if let Err(e) = check_keys(o, "strike", keys) {
            return Err(e);
        }
        Ok(Mark::Strike)
    } else if same_text(tag, "strong") {
        let keys = vec!["type"];
        assert(keys@ == seq!["type"]);
        if let Err(e) = check_keys(o, "strong", keys) {
            return Err(e);
        }
        Ok(Mark::Strong)
    } else if same_text(tag, "subSup") {
        let keys = vec!["type", "attrs"];
        assert(keys@ == seq!["type", "attrs"]);
        if let Err(e) = check_keys(o, "subSup", keys) {
            return Err(e);
        }
        let attrs = match req_member(o, "subSup", "attrs") {
            Ok(i) => match read_sub_sup_attrs(&o[i].1, "subSup") {
                Ok(a) => a,
                Err(e) => return Err(e.within(PathStep::Field("attrs"))),
            },
            Err(e) => return Err(e),
        };
        Ok(Mark::SubSup { attrs })
    } else if same_text(tag, "textColor") {
        let keys = vec!["type", "attrs"];
        assert(keys@ == seq!["type", "attrs"]);
        if let Err(e) = check_keys(o, "textColor", keys) {
            return Err(e);
        }
        let attrs = match req_member(o, "textColor", "attrs") {
            Ok(i) => match read_color_attrs(&o[i].1, "textColor") {
                Ok(a) => a,
                Err(e) => return Err(e.within(PathStep::Field("attrs"))),
            },
            Err(e) => return Err(e),
        };
        Ok(Mark::TextColor { attrs })
    } else if same_text(tag, "underline") {
        let keys = vec!["type"];
        assert(keys@ == seq!["type"]);
        if let Err(e) = check_keys(o, "underline", keys) {
            return Err(e);
        }
        Ok(Mark::Underline)
    } else {
        Err(error_at(DecodeErrorKind::UnknownVariant(tag.clone())))
    }
}

/// Reads the optional `marks` member of a node.
fn read_marks(o: &Vec<(String, JsonValue)>, variant: &'static str) -> (r: Result<Option<Vec<Mark>>, DecodeError>)
    ensures
        r matches Err(e) ==> (e.path@.len() > 0 ==> e.path@[0] == PathStep::Field("marks") && (member(
            o@,
            "marks"@,
        ) matches Some(JsonValue::Array(a)) && mark_fails_at(a@, e.path@.drop_first()))),
        r matches Err(e) ==> (e.path@.len() == 0 ==> names_variant(e.kind, variant@)),
        r matches Err(e) ==> blames_member(o@, e),
        r matches Err(e) ==> !(e.kind is MalformedInput),
        match r {
            Ok(ms) => marks_of(member(o@, "marks"@), ms),
            Err(_) => forall|ms: Option<Vec<Mark>>| !marks_of(member(o@, "marks"@), ms),
        },
{
    let i = match opt_member(o, "marks") {
        None => return Ok(None),
        Some(i) => i,
    };
    let a = match &o[i].1 {
        JsonValue::Array(a) => a,
        _ => return Err(mismatch(variant, "marks", "array")),
    };
    if a.len() == 0 {
        return Ok(None);
    }
    let mut out: Vec<Mark> = Vec::new();
    let mut k: usize = 0;
    while k < a.len()
        invariant
            member(o@, "marks"@) == Some(JsonValue::Array(*a)),
            k <= a@.len(),
            out@.len() == k,
            forall|x: int| 0 <= x < k ==> mark_of(a@[x], #[trigger] out@[x]),
        decreases a@.len() - k,
    {
        match read_mark(&a[k]) {
            Ok(m) => out.push(m),
            Err(e) => {
                assert forall|ms: Option<Vec<Mark>>| !marks_of(member(o@, "marks"@), ms) by {
                    if let Some(v) = ms {
                        if marks_of(member(o@, "marks"@), ms) {
                            assert(mark_of(a@[k as int], v@[k as int]));
                        }
                    }
                }
                assert forall|x: int| 0 <= x < k implies reads_mark(#[trigger] a@[x]) by {
                    assert(mark_of(a@[x], out@[x]));
                }
                let r = e.within(PathStep::Index(k)).within(PathStep::Field("marks"));
                assert(r.path@.drop_first() =~= seq![PathStep::Index(k)] + e.path@);
                return Err(r);
            },
        }
        k = k + 1;
    }
    Ok(Some(out))
}

/// Reads the elements of an array as nodes, in order.
pub fn decode_nodes(a: &Vec<JsonValue>) -> (r: Result<Vec<Node>, DecodeError>)
    ensures
        r matches Err(e) ==> fails_at(a@, e.path@, e.kind),
        r matches Err(e) ==> !(e.kind is MalformedInput),
        match r {
            Ok(c) => nodes_of(Some(JsonValue::Array(*a)), c),
            Err(_) => forall|c: Vec<Node>| !nodes_of(Some(JsonValue::Array(*a)), c),
        },
    decreases a,
{
    let mut out: Vec<Node> = Vec::new();
    let mut k: usize = 0;
    while k < a.len()
        invariant
            k <= a@.len(),
            out@.len() == k,
            forall|x: int| 0 <= x < k ==> decodes(a@[x], #[trigger] out@[x]),
        decreases a@.len() - k,
    {
        match decode_node(&a[k]) {
            Ok(n) => out.push(n),
            Err(e) => {
                assert forall|c: Vec<Node>| !nodes_of(Some(JsonValue::Array(*a)), c) by {
                    if nodes_of(Some(JsonValue::Array(*a)), c) {
                        assert(decodes(a@[k as int], c@[k as int]));
                    }
                }
                assert forall|x: int| 0 <= x < k implies reads(#[trigger] a@[x]) by {
                    assert(decodes(a@[x], out@[x]));
                }
                let r = e.within(PathStep::Index(k));
                assert(r.path@[0] == PathStep::Index(k));
                assert(r.path@.drop_first() =~= e.path@);
                return Err(r);
            },
        }
        k = k + 1;
    }
    Ok(out)
}

/// Reads the `content` member of a node: an array of nodes.
fn content_field(o: &Vec<(String, JsonValue)>, variant: &'static str) -> (r: Result<Vec<Node>, DecodeError>)
    ensures
        member(o@, "content"@) matches Some(x) && !(x is Array) ==> (r matches Err(e) && e.kind == (
        DecodeErrorKind::TypeMismatch { variant, field: "content", expected: "array" }) && e.path@.len() == 0),
        member(o@, "content"@) is None ==> (r matches Err(e) && e.kind == (DecodeErrorKind::MissingField {
            variant,
            field: "content",
        }) && e.path@.len() == 0),
        r matches Err(e) ==> (e.path@.len() > 0 ==> e.path@[0] == PathStep::Field("content") && (member(
            o@,
            "content"@,
        ) matches Some(JsonValue::Array(a)) && fails_at(a@, e.path@.drop_first(), e.kind))),
        r matches Err(e) ==> (e.path@.len() == 0 ==> names_variant(e.kind, variant@)),
        r matches Err(e) ==> blames_member(o@, e),
        r matches Err(e) ==> !(e.kind is MalformedInput),
        match r {
            Ok(c) => nodes_of(member(o@, "content"@), c),
            Err(_) => forall|c: Vec<Node>| !nodes_of(member(o@, "content"@), c),
        },
    decreases o,
{
    match req_member(o, variant, "content") {
        Ok(i) => match &o[i].1 {
            JsonValue::Array(a) => match decode_nodes(a) {
                Ok(c) => Ok(c),
                Err(e) => {
                    let r = e.within(PathStep::Field("content"));
                    assert(r.path@.drop_first() =~= e.path@);
                    Err(r)
                },
            },
            _ => Err(mismatch(variant, "content", "array")),
        },
        Err(e) => Err(e),
    }
}

/// Reads a JSON value as a node, and with it the whole subtree below.
pub fn decode_node(j: &JsonValue) -> (r: Result<Node, DecodeError>)
    ensures
        tag_schema(tag_or_empty(*j)) matches Some((v, ks, Some(f))) ==> (keys_within(j->Object_0@, ks) && (member(
            j->Object_0@,
            f@,
        ) matches Some(x) && !first_field_shaped(f, x)) ==> (r matches Err(e) && (e.kind matches DecodeErrorKind::TypeMismatch {
            variant: ev,
            field: ef,
            ..
        } && ev == v && ef == f))),
        tag_schema(tag_or_empty(*j)) matches Some((v, ks, Some(f))) ==> (keys_within(j->Object_0@, ks) && member(
            j->Object_0@,
            f@,
        ) is None ==> (r matches Err(e) && e.kind == (DecodeErrorKind::MissingField { variant: v, field: f })
            && e.path@.len() == 0)),
        r matches Err(e) ==> (e.path@.len() > 0 && e.path@[0] == PathStep::Field("marks") ==> fails_in_marks(
            *j,
            e.path@.drop_first(),
        )),
        r matches Err(e) ==> located(*j, e.path@, e.kind),
        r matches Err(e) ==> (e.path@.len() == 0 ==> names_variant(e.kind, tag_or_empty(*j))),
        r matches Err(e) ==> blames(*j, e),
        r matches Err(e) ==> !(e.kind is MalformedInput),
        match r {
            Ok(n) => decodes(*j, n),
            Err(_) => forall|n: Node| !decodes(*j, n),
        },
        (tag_text(*j) matches Some(t) ==> !node_tag_known(t)) ==> (r matches Err(e)
            && e.kind matches DecodeErrorKind::UnknownVariant(u) && u@ == tag_or_empty(*j) && e.path@.len() == 0),
        forall|n: Node|
            #![trigger tag_matches(tag_text(*j)->Some_0, n)]
            tag_text(*j) is Some && tag_matches(tag_text(*j)->Some_0, n) && !keys_within(j->Object_0@, node_keys(n))
                ==> (r matches Err(e) && e.kind matches DecodeErrorKind::UnexpectedField { variant, field }
                && variant@ == tag_text(*j)->Some_0 && first_unexpected(j->Object_0@, node_keys(n), field@)
                && e.path@.len() == 0),
    decreases j,
{
    proof {
        lemma_names();
    }
    let (o, tag) = match tagged(j) {
        Some(p) => p,
        None => return Err(error_at(DecodeErrorKind::UnknownVariant(String::new()))),
    };
    if same_text(tag, "blockquote") {
        let keys = vec!["type", "content"];
        assert(keys@ == seq!["type", "content"]);
        if let Err(e) = check_keys(o, "blockquote", keys) {
            return Err(e);
        }
        let content = match content_field(o, "blockquote") {
            Ok(c) => c,
            Err(e) => {
                assert forall|n: Node| !decodes(*j, n) by {
                    if decodes(*j, n) {
                        assert(nodes_of(member(o@, "content"@), n->Blockquote_content));
                    }
                }
                return Err(e);
            },
        };
        Ok(Node::Blockquote { content })
    } else if same_text(tag, "bulletList") {
        let keys = vec!["type", "content"];
        assert(keys@ == seq!["type", "content"]);
        if let Err(e) = check_keys(o, "bulletList", keys) {
            return Err(e);
        }
        let content = match content_field(o, "bulletList") {
            Ok(c) => c,
            Err(e) => {
                assert forall|n: Node| !decodes(*j, n) by {
                    if decodes(*j, n) {
                        assert(nodes_of(member(o@, "content"@), n->BulletList_content));
                    }
                }
                return Err(e);
            },
        };
        Ok(Node::BulletList { content })
    } else if same_text(tag, "codeBlock") {
        let keys = vec!["type", "content", "attrs"];
        assert(keys@ == seq!["type", "content", "attrs"]);
        if let Err(e) = check_keys(o, "codeBlock", keys) {
            return Err(e);
        }
        let content = match opt_member(o, "content") {
            None => None,
            Some(_) => match content_field(o, "codeBlock") {
                Ok(c) => Some(c),
                Err(e) => {
                    assert forall|n: Node| !decodes(*j, n) by {
                        if decodes(*j, n) {
                            if let Some(c) = n->CodeBlock_content {
                                assert(nodes_of(member(o@, "content"@), c));
                            }
                        }
                    }
                    return Err(e);
                },
            },
        };
        let attrs = match opt_member(o, "attrs") {
            None => None,
            Some(i) => match read_code_block_attrs(&o[i].1, "codeBlock") {
                Ok(a) => Some(a),
                Err(e) => return Err(e.within(PathStep::Field("attrs"))),
            },
        };
        Ok(Node::CodeBlock { content, attrs })
    } else if same_text(tag, "date") {
        let keys = vec!["type", "attrs"];
        assert(keys@ == seq!["type", "attrs"]);
        if let Err(e) = check_keys(o, "date", keys) {
            return Err(e);
        }
        let attrs = match req_member(o, "date", "attrs") {
            Ok(i) => match read_date_attrs(&o[i].1, "date") {
                Ok(a) => a,
                Err(e) => return Err(e.within(PathStep::Field("attrs"))),
            },
            Err(e) => return Err(e),
        };
        Ok(Node::Date { attrs })
    } else if same_text(tag, "doc") {
        let keys = vec!["type", "version", "content"];
        assert(keys@ == seq!["type", "version", "content"]);
        if let Err(e) = check_keys(o, "doc", keys) {
            return Err(e);
        }
        let version = match int_field(o, "doc", "version", -128, 127) {
            Ok(x) => x as i8,
            Err(e) => return Err(e),
        };
        let content = match content_field(o, "doc") {
            Ok(c) => c,
            Err(e) => {
                assert forall|n: Node| !decodes(*j, n) by {
                    if decodes(*j, n) {
                        assert(nodes_of(member(o@, "content"@), n->Doc_content));
                    }
                }
                return Err(e);
            },
        };
        Ok(Node::Doc { version, content })
    } else if same_text(tag, "emoji") {
        let keys = vec!["type", "attrs"];
        assert(keys@ == seq!["type", "attrs"]);
        if let Err(e) = check_keys(o, "emoji", keys) {
            return Err(e);
        }
        let attrs = match req_member(o, "emoji", "attrs") {
            Ok(i) => match read_emoji_attrs(&o[i].1, "emoji") {
                Ok(a) => a,
                Err(e) => return Err(e.within(PathStep::Field("attrs"))),
            },
            Err(e) => return Err(e),
        };
        Ok(Node::Emoji { attrs })
    } else if same_text(tag, "expand") {
        let keys = vec!["type", "content", "attrs", "marks"];
        assert(keys@ == seq!["type", "content", "attrs", "marks"]);
        if let Err(e) = check_keys(o, "expand", keys) {
            return Err(e);
        }
        let content = match content_field(o, "expand") {
            Ok(c) => c,
            Err(e) => {
                assert forall|n: Node| !decodes(*j, n) by {
                    if decodes(*j, n) {
                        assert(nodes_of(member(o@, "content"@), n->Expand_content));
                    }
                }
                return Err(e);
            },
        };
        let attrs = match req_member(o, "expand", "attrs") {
            Ok(i) => match read_expand_attrs(&o[i].1, "expand") {
                Ok(a) => a,
                Err(e) => return Err(e.within(PathStep::Field("attrs"))),
            },
            Err(e) => return Err(e),
        };
        let marks = match read_marks(o, "expand") {
            Ok(m) => m,
            Err(e) => return Err(e),
        };
        Ok(Node::Expand { content, attrs, marks })
    } else if same_text(tag, "hardBreak") {
        let keys = vec!["type", "attrs"];
        assert(keys@ == seq!["type", "attrs"]);
        if let Err(e) = check_keys(o, "hardBreak", keys) {
            return Err(e);
        }
        let attrs = match opt_member(o, "attrs") {
            None => None,
            Some(i) => match read_hard_break_attrs(&o[i].1, "hardBreak") {
                Ok(a) => Some(a),
                Err(e) => return Err(e.within(PathStep::Field("attrs"))),
            },
        };
        Ok(Node::HardBreak { attrs })
    } else if same_text(tag, "heading") {
        let keys = vec!["type", "content", "attrs"];
        assert(keys@ == seq!["type", "content", "attrs"]);
        if let Err(e) = check_keys(o, "heading", keys) {
            return Err(e);
        }
        let content = match content_field(o, "heading") {
            Ok(c) => c,
            Err(e) => {
                assert forall|n: Node| !decodes(*j, n) by {
                    if decodes(*j, n) {
                        assert(nodes_of(member(o@, "content"@), n->Heading_content));
                    }
                }
                return Err(e);
            },
        };
        let attrs = match req_member(o, "heading", "attrs") {
            Ok(i) => match read_heading_attrs(&o[i].1, "heading") {
                Ok(a) => a,
                Err(e) => return Err(e.within(PathStep::Field("attrs"))),
            },
            Err(e) => return Err(e),
        };
        Ok(Node::Heading { content, attrs })
    } else if same_text(tag, "inlineCard") {
        let keys = vec!["type", "attrs"];
        assert(keys@ == seq!["type", "attrs"]);
        if let Err(e) = check_keys(o, "inlineCard", keys) {
            return Err(e);
        }
        let attrs = match req_member(o, "inlineCard", "attrs") {
            Ok(i) => match read_inline_card_attrs(&o[i].1, "inlineCard") {
                Ok(a) => a,
                Err(e) => return Err(e.within(PathStep::Field("attrs"))),
            },
            Err(e) => return Err(e),
        };
        Ok(Node::InlineCard { attrs })
    } else if same_text(tag, "listItem") {
        let keys = vec!["type", "content"];
        assert(keys@ == seq!["type", "content"]);
        if let Err(e) = check_keys(o, "listItem", keys) {
            return Err(e);
        }
        let content = match content_field(o, "listItem") {
            Ok(c) => c,
            Err(e) => {
                assert forall|n: Node| !decodes(*j, n) by {
                    if decodes(*j, n) {
                        assert(nodes_of(member(o@, "content"@), n->ListItem_content));
                    }
                }
                return Err(e);
            },
        };
        Ok(Node::ListItem { content })
    } else if same_text(tag, "media") {
        let keys = vec!["type", "attrs"];
        assert(keys@ == seq!["type", "attrs"]);
        if let Err(e) = check_keys(o, "media", keys) {
            return Err(e);
        }
        let attrs = match req_member(o, "media", "attrs") {
            Ok(i) => match read_media_attrs(&o[i].1, "media") {
                Ok(a) => a,
                Err(e) => return Err(e.within(PathStep::Field("attrs"))),
            },
            Err(e) => return Err(e),
        };
        Ok(Node::Media { attrs })
    } else if same_text(tag, "mediaGroup") {
        let keys = vec!["type", "content"];
        assert(keys@ == seq!["type", "content"]);
        if let Err(e) = check_keys(o, "mediaGroup", keys) {
            return Err(e);
        }
        let content = match content_field(o, "mediaGroup") {
            Ok(c) => c,
            Err(e) => {
                assert forall|n: Node| !decodes(*j, n) by {
                    if decodes(*j, n) {
                        assert(nodes_of(member(o@, "content"@), n->MediaGroup_content));
                    }
                }
                return Err(e);
            },
        };
        Ok(Node::MediaGroup { content })
    } else if same_text(tag, "mediaSingle") {
        let keys = vec!["type", "content", "attrs"];
        assert(keys@ == seq!["type", "content", "attrs"]);
        if let Err(e) = check_keys(o, "mediaSingle", keys) {
            return Err(e);
        }
        let content = match content_field(o, "mediaSingle") {
            Ok(c) => c,
            Err(e) => {
                assert forall|n: Node| !decodes(*j, n) by {
                    if decodes(*j, n) {
                        assert(nodes_of(member(o@, "content"@), n->MediaSingle_content));
                    }
                }
                return Err(e);
            },
        };
        let attrs = match req_member(o, "mediaSingle", "attrs") {
            Ok(i) => match read_media_single_attrs(&o[i].1, "mediaSingle") {
                Ok(a) => a,
                Err(e) => return Err(e.within(PathStep::Field("attrs"))),
            },
            Err(e) => return Err(e),
        };
        Ok(Node::MediaSingle { content, attrs })
    } else if same_text(tag, "mention") {
        let keys = vec!["type", "attrs"];
        assert(keys@ == seq!["type", "attrs"]);
        if let Err(e) = check_keys(o, "mention", keys) {
            return Err(e);
        }
        let attrs = match req_member(o, "mention", "attrs") {
            Ok(i) => match read_mention_attrs(&o[i].1, "mention") {
                Ok(a) => a,
                Err(e) => return Err(e.within(PathStep::Field("attrs"))),
            },
            Err(e) => return Err(e),
        };
        Ok(Node::Mention { attrs })
    } else if same_text(tag, "nestedExpand") {
        let keys = vec!["type", "content", "attrs"];
        assert(keys@ == seq!["type", "content", "attrs"]);
        if let Err(e) = check_keys(o, "nestedExpand", keys) {
            return Err(e);
        }
        let content = match content_field(o, "nestedExpand") {
            Ok(c) => c,
            Err(e) => {
                assert forall|n: Node| !decodes(*j, n) by {
                    if decodes(*j, n) {
                        assert(nodes_of(member(o@, "content"@), n->NestedExpand_content));
                    }
                }
                return Err(e);
            },
        };
        let attrs = match req_member(o, "nestedExpand", "attrs") {
            Ok(i) => match read_expand_attrs(&o[i].1, "nestedExpand") {
                Ok(a) => a,
                Err(e) => return Err(e.within(PathStep::Field("attrs"))),
            },
            Err(e) => return Err(e),
        };
        Ok(Node::NestedExpand { content, attrs })
    } else if same_text(tag, "orderedList") {
        let keys = vec!["type", "content", "attrs"];
        assert(keys@ == seq!["type", "content", "attrs"]);
        if let Err(e) = check_keys(o, "orderedList", keys) {
            return Err(e);
        }
        let content = match content_field(o, "orderedList") {
            Ok(c) => c,
            Err(e) => {
                assert forall|n: Node| !decodes(*j, n) by {
                    if decodes(*j, n) {
                        assert(nodes_of(member(o@, "content"@), n->OrderedList_content));
                    }
                }
                return Err(e);
            },
        };
        let attrs = match opt_member(o, "attrs") {
            None => None,
            Some(i) => match read_ordered_list_attrs(&o[i].1, "orderedList") {
                Ok(a) => Some(a),
                Err(e) => return Err(e.within(PathStep::Field("attrs"))),
            },
        };
        Ok(Node::OrderedList { content, attrs })
    } else if same_text(tag, "panel") {
        let keys = vec!["type", "content", "attrs"];
        assert(keys@ == seq!["type", "content", "attrs"]);
        if let Err(e) = check_keys(o, "panel", keys) {
            return Err(e);
        }
        let content = match content_field(o, "panel") {
            Ok(c) => c,
            Err(e) => {
                assert forall|n: Node| !decodes(*j, n) by {
                    if decodes(*j, n) {
                        assert(nodes_of(member(o@, "content"@), n->Panel_content));
                    }
                }
                return Err(e);
            },
        };
        let attrs = match req_member(o, "panel", "attrs") {
            Ok(i) => match read_panel_attrs(&o[i].1, "panel") {
                Ok(a) => a,
                Err(e) => return Err(e.within(PathStep::Field("attrs"))),
            },
            Err(e) => return Err(e),
        };
        Ok(Node::Panel { content, attrs })
    } else if same_text(tag, "paragraph") {
        let keys = vec!["type", "content", "attrs"];
        assert(keys@ == seq!["type", "content", "attrs"]);
        if let Err(e) = check_keys(o, "paragraph", keys) {
            return Err(e);
        }
        let content = match content_field(o, "paragraph") {
            Ok(c) => c,
            Err(e) => {
                assert forall|n: Node| !decodes(*j, n) by {
                    if decodes(*j, n) {
                        assert(nodes_of(member(o@, "content"@), n->Paragraph_content));
                    }
                }
                return Err(e);
            },
        };
        let attrs = match opt_member(o, "attrs") {
            None => None,
            Some(i) => match read_paragraph_attrs(&o[i].1, "paragraph") {
                Ok(a) => Some(a),
                Err(e) => return Err(e.within(PathStep::Field("attrs"))),
            },
        };
        Ok(Node::Paragraph { content, attrs })
    } else if same_text(tag, "rule") {
        let keys = vec!["type"];
        assert(keys@ == seq!["type"]);
        if let Err(e) = check_keys(o, "rule", keys) {
            return Err(e);
        }
        Ok(Node::Rule)
    } else if same_text(tag, "status") {
        let keys = vec!["type", "attrs"];
        assert(keys@ == seq!["type", "attrs"]);
        if let Err(e) = check_keys(o, "status", keys) {
            return Err(e);
        }
        let attrs = match req_member(o, "status", "attrs") {
            Ok(i) => match read_status_attrs(&o[i].1, "status") {
                Ok(a) => a,
                Err(e) => return Err(e.within(PathStep::Field("attrs"))),
            },
            Err(e) => return Err(e),
        };
        Ok(Node::Status { attrs })
    } else if same_text(tag, "table") {
        let keys = vec!["type", "content", "attrs"];
        assert(keys@ == seq!["type", "content", "attrs"]);
        if let Err(e) = check_keys(o, "table", keys) {
            return Err(e);
        }
        let content = match content_field(o, "table") {
            Ok(c) => c,
            Err(e) => {
                assert forall|n: Node| !decodes(*j, n) by {
                    if decodes(*j, n) {
                        assert(nodes_of(member(o@, "content"@), n->Table_content));
                    }
                }
                return Err(e);
            },
        };
        let attrs = match opt_member(o, "attrs") {
            None => None,
            Some(i) => match read_table_attrs(&o[i].1, "table") {
                Ok(a) => Some(a),
                Err(e) => return Err(e.within(PathStep::Field("attrs"))),
            },
        };
        Ok(Node::Table { content, attrs })
    } else if same_text(tag, "tableCell") {
        let keys = vec!["type", "content", "attrs"];
        assert(keys@ == seq!["type", "content", "attrs"]);
        if let Err(e) = check_keys(o, "tableCell", keys) {
            return Err(e);
        }
        let content = match content_field(o, "tableCell") {
            Ok(c) => c,
            Err(e) => {
                assert forall|n: Node| !decodes(*j, n) by {
                    if decodes(*j, n) {
                        assert(nodes_of(member(o@, "content"@), n->TableCell_content));
                    }
                }
                return Err(e);
            },
        };
        let attrs = match opt_member(o, "attrs") {
            None => None,
            Some(i) => match read_table_cell_attrs(&o[i].1, "tableCell") {
                Ok(a) => Some(a),
                Err(e) => return Err(e.within(PathStep::Field("attrs"))),
            },
        };
        Ok(Node::TableCell { content, attrs })
    } else if same_text(tag, "tableHeader") {
        let keys = vec!["type", "content", "attrs"];
        assert(keys@ == seq!["type", "content", "attrs"]);
        if let Err(e) = check_keys(o, "tableHeader", keys) {
            return Err(e);
        }
        let content = match content_field(o, "tableHeader") {
            Ok(c) => c,
            Err(e) => {
                assert forall|n: Node| !decodes(*j, n) by {
                    if decodes(*j, n) {
                        assert(nodes_of(member(o@, "content"@), n->TableHeader_content));
                    }
                }
                return Err(e);
            },
        };
        let attrs = match opt_member(o, "attrs") {
            None => None,
            Some(i) => match read_table_cell_attrs(&o[i].1, "tableHeader") {
                Ok(a) => Some(a),
                Err(e) => return Err(e.within(PathStep::Field("attrs"))),
            },
        };
        Ok(Node::TableHeader { content, attrs })
    } else if same_text(tag, "tableRow") {
        let keys = vec!["type", "content"];
        assert(keys@ == seq!["type", "content"]);
        if let Err(e) = check_keys(o, "tableRow", keys) {
            return Err(e);
        }
        let content = match content_field(o, "tableRow") {
            Ok(c) => c,
            Err(e) => {
                assert forall|n: Node| !decodes(*j, n) by {
                    if decodes(*j, n) {
                        assert(nodes_of(member(o@, "content"@), n->TableRow_content));
                    }
                }
                return Err(e);
            },
        };
        Ok(Node::TableRow { content })
    } else if same_text(tag, "text") {
        let keys = vec!["type", "text", "marks"];
        assert(keys@ == seq!["type", "text", "marks"]);
        if let Err(e) = check_keys(o, "text", keys) {
            return Err(e);
        }
        let text = match str_field(o, "text", "text") {
            Ok(x) => x,
            Err(e) => return Err(e),
        };
        let marks = match read_marks(o, "text") {
            Ok(m) => m,
            Err(e) => return Err(e),
        };
        Ok(Node::Text { text, marks })
    } else {
        Err(error_at(DecodeErrorKind::UnknownVariant(tag.clone())))
    }
}

} // verus!
