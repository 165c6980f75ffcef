//! Laws that relate reading and writing.
use vstd::prelude::*;

use crate::attrs::table_cell_attrs_of;
use crate::decode::{decodes, mark_of, marks_of, nodes_of};
use crate::fields::int_of;
use crate::encode::{encodes, nodes_enc};
use crate::json::{member, JsonValue};
use crate::model::{node_wf, same_cell_attrs, same_marks, same_node, same_nodes, Mark, Node, TableCellAttrs};
use crate::names::lemma_names;

verus! {

/// Writing a well-formed node and reading the result back gives the same
/// node: whatever `j` writes `n`, `j` reads as `n`.
pub proof fn lemma_round_trip(n: Node, j: JsonValue)
    requires
        node_wf(n),
        encodes(n, j),
    ensures
        decodes(j, n),
    decreases n,
{
    lemma_names();
    let o = j->Object_0;
    match n {
        Node::Blockquote { content } => lemma_nodes_round_trip(member(o@, "content"@), content),
        Node::BulletList { content } => lemma_nodes_round_trip(member(o@, "content"@), content),
        Node::CodeBlock { content: Some(c), .. } => lemma_nodes_round_trip(member(o@, "content"@), c),
        Node::Doc { content, .. } => lemma_nodes_round_trip(member(o@, "content"@), content),
        Node::Expand { content, .. } => lemma_nodes_round_trip(member(o@, "content"@), content),
        Node::Heading { content, .. } => lemma_nodes_round_trip(member(o@, "content"@), content),
        Node::ListItem { content } => lemma_nodes_round_trip(member(o@, "content"@), content),
        Node::MediaGroup { content } => lemma_nodes_round_trip(member(o@, "content"@), content),
        Node::MediaSingle { content, .. } => lemma_nodes_round_trip(member(o@, "content"@), content),
        Node::NestedExpand { content, .. } => lemma_nodes_round_trip(member(o@, "content"@), content),
        Node::OrderedList { content, .. } => lemma_nodes_round_trip(member(o@, "content"@), content),
        Node::Panel { content, .. } => lemma_nodes_round_trip(member(o@, "content"@), content),
        Node::Paragraph { content, .. } => lemma_nodes_round_trip(member(o@, "content"@), content),
        Node::Table { content, .. } => lemma_nodes_round_trip(member(o@, "content"@), content),
        Node::TableCell { content, .. } => lemma_nodes_round_trip(member(o@, "content"@), content),
        Node::TableHeader { content, .. } => lemma_nodes_round_trip(member(o@, "content"@), content),
        Node::TableRow { content } => lemma_nodes_round_trip(member(o@, "content"@), content),
        _ => {},
    }
}

/// Writing nodes and reading the array back gives the same nodes.
pub proof fn lemma_nodes_round_trip(v: Option<JsonValue>, c: Vec<Node>)
    requires
        nodes_enc(v, c),
        forall|i: int| 0 <= i < c@.len() ==> node_wf(#[trigger] c@[i]),
    ensures
        nodes_of(v, c),
    decreases c,
{
    let a = v->Some_0->Array_0;
    assert forall|i: int| 0 <= i < a@.len() implies decodes(a@[i], #[trigger] c@[i]) by {
        lemma_round_trip(c@[i], a@[i]);
    }
}

/// Every node that reading produces is well-formed.
pub proof fn lemma_decoded_wf(j: JsonValue, n: Node)
    requires
        decodes(j, n),
    ensures
        node_wf(n),
    decreases n,
{
    let o = j->Object_0;
    match n {
        Node::Blockquote { content } => lemma_decoded_nodes_wf(member(o@, "content"@), content),
        Node::BulletList { content } => lemma_decoded_nodes_wf(member(o@, "content"@), content),
        Node::CodeBlock { content: Some(c), .. } => lemma_decoded_nodes_wf(member(o@, "content"@), c),
        Node::Doc { content, .. } => lemma_decoded_nodes_wf(member(o@, "content"@), content),
        Node::Expand { content, .. } => lemma_decoded_nodes_wf(member(o@, "content"@), content),
        Node::Heading { content, .. } => lemma_decoded_nodes_wf(member(o@, "content"@), content),
        Node::ListItem { content } => lemma_decoded_nodes_wf(member(o@, "content"@), content),
        Node::MediaGroup { content } => lemma_decoded_nodes_wf(member(o@, "content"@), content),
        Node::MediaSingle { content, .. } => lemma_decoded_nodes_wf(member(o@, "content"@), content),
        Node::NestedExpand { content, .. } => lemma_decoded_nodes_wf(member(o@, "content"@), content),
        Node::OrderedList { content, .. } => lemma_decoded_nodes_wf(member(o@, "content"@), content),
        Node::Panel { content, .. } => lemma_decoded_nodes_wf(member(o@, "content"@), content),
        Node::Paragraph { content, .. } => lemma_decoded_nodes_wf(member(o@, "content"@), content),
        Node::Table { content, .. } => lemma_decoded_nodes_wf(member(o@, "content"@), content),
        Node::TableCell { content, .. } => lemma_decoded_nodes_wf(member(o@, "content"@), content),
        Node::TableHeader { content, .. } => lemma_decoded_nodes_wf(member(o@, "content"@), content),
        Node::TableRow { content } => lemma_decoded_nodes_wf(member(o@, "content"@), content),
        _ => {},
    }
}

/// Every node in an array that reading produces is well-formed.
pub proof fn lemma_decoded_nodes_wf(v: Option<JsonValue>, c: Vec<Node>)
    requires
        nodes_of(v, c),
    ensures
        forall|i: int| 0 <= i < c@.len() ==> node_wf(#[trigger] c@[i]),
    decreases c,
{
    let a = v->Some_0->Array_0;
    assert forall|i: int| 0 <= i < c@.len() implies node_wf(#[trigger] c@[i]) by {
        lemma_decoded_wf(a@[i], c@[i]);
    }
}

/// Reading normalises: once a value `v` reads as `n`, the way `n` is
/// written reads as `n` again, so re-reading what was written changes
/// nothing.
pub proof fn lemma_rewrite_is_stable(v: JsonValue, n: Node, j: JsonValue)
    requires
        decodes(v, n),
        encodes(n, j),
    ensures
        decodes(j, n),
{
    lemma_decoded_wf(v, n);
    lemma_round_trip(n, j);
}

/// Reading is a function: a value reads as at most one tree, up to how its
/// sequences are held.
pub proof fn lemma_decodes_unique(j: JsonValue, a: Node, b: Node)
    requires
        decodes(j, a),
        decodes(j, b),
    ensures
        same_node(a, b),
    decreases a,
{
    let o = j->Object_0;
    match a {
        Node::Blockquote { content, .. } => {
            assert(b is Blockquote);
            lemma_nodes_unique(member(o@, "content"@), content, b->Blockquote_content);
        },
        Node::BulletList { content, .. } => {
            assert(b is BulletList);
            lemma_nodes_unique(member(o@, "content"@), content, b->BulletList_content);
        },
        Node::CodeBlock { content, .. } => {
            assert(b is CodeBlock);
            if let (Some(x), Some(y)) = (content, b->CodeBlock_content) {
                lemma_nodes_unique(member(o@, "content"@), x, y);
            }
        },
        Node::Date { .. } => {
            assert(b is Date);
        },
        Node::Doc { content, .. } => {
            assert(b is Doc);
            lemma_nodes_unique(member(o@, "content"@), content, b->Doc_content);
        },
        Node::Emoji { .. } => {
            assert(b is Emoji);
        },
        Node::Expand { content, marks, .. } => {
            assert(b is Expand);
            lemma_nodes_unique(member(o@, "content"@), content, b->Expand_content);
            lemma_marks_unique(member(o@, "marks"@), marks, b->Expand_marks);
        },
        Node::HardBreak { .. } => {
            assert(b is HardBreak);
        },
        Node::Heading { content, .. } => {
            assert(b is Heading);
            lemma_nodes_unique(member(o@, "content"@), content, b->Heading_content);
        },
        Node::InlineCard { .. } => {
            assert(b is InlineCard);
        },
        Node::ListItem { content, .. } => {
            assert(b is ListItem);
            lemma_nodes_unique(member(o@, "content"@), content, b->ListItem_content);
        },
        Node::Media { .. } => {
            assert(b is Media);
        },
        Node::MediaGroup { content, .. } => {
            assert(b is MediaGroup);
            lemma_nodes_unique(member(o@, "content"@), content, b->MediaGroup_content);
        },
        Node::MediaSingle { content, .. } => {
            assert(b is MediaSingle);
            lemma_nodes_unique(member(o@, "content"@), content, b->MediaSingle_content);
        },
        Node::Mention { .. } => {
            assert(b is Mention);
        },
        Node::NestedExpand { content, .. } => {
            assert(b is NestedExpand);
            lemma_nodes_unique(member(o@, "content"@), content, b->NestedExpand_content);
        },
        Node::OrderedList { content, .. } => {
            assert(b is OrderedList);
            lemma_nodes_unique(member(o@, "content"@), content, b->OrderedList_content);
        },
        Node::Panel { content, .. } => {
            assert(b is Panel);
            lemma_nodes_unique(member(o@, "content"@), content, b->Panel_content);
        },
        Node::Paragraph { content, .. } => {
            assert(b is Paragraph);
            lemma_nodes_unique(member(o@, "content"@), content, b->Paragraph_content);
        },
        Node::Status { .. } => {
            assert(b is Status);
        },
        Node::Table { content, .. } => {
            assert(b is Table);
            lemma_nodes_unique(member(o@, "content"@), content, b->Table_content);
        },
        Node::TableCell { content, attrs, .. } => {
            assert(b is TableCell);
            lemma_nodes_unique(member(o@, "content"@), content, b->TableCell_content);
            if let (Some(x), Some(y)) = (attrs, b->TableCell_attrs) {
                lemma_cell_attrs_unique(member(o@, "attrs"@)->Some_0, x, y);
            }
        },
        Node::TableHeader { content, attrs, .. } => {
            assert(b is TableHeader);
            lemma_nodes_unique(member(o@, "content"@), content, b->TableHeader_content);
            if let (Some(x), Some(y)) = (attrs, b->TableHeader_attrs) {
                lemma_cell_attrs_unique(member(o@, "attrs"@)->Some_0, x, y);
            }
        },
        Node::TableRow { content, .. } => {
            assert(b is TableRow);
            lemma_nodes_unique(member(o@, "content"@), content, b->TableRow_content);
        },
        Node::Text { marks, .. } => {
            assert(b is Text);
            lemma_marks_unique(member(o@, "marks"@), marks, b->Text_marks);
        },
        _ => {},
    }
}

/// An array reads as at most one sequence of trees: each element as one
/// tree, in order.
pub proof fn lemma_nodes_unique(v: Option<JsonValue>, c1: Vec<Node>, c2: Vec<Node>)
    requires
        nodes_of(v, c1),
        nodes_of(v, c2),
    ensures
        same_nodes(c1, c2),
    decreases c1,
{
    let a = v->Some_0->Array_0;
    assert forall|i: int| 0 <= i < c1@.len() implies same_node(#[trigger] c1@[i], c2@[i]) by {
        lemma_decodes_unique(a@[i], c1@[i], c2@[i]);
    }
}

proof fn lemma_marks_unique(v: Option<JsonValue>, m1: Option<Vec<Mark>>, m2: Option<Vec<Mark>>)
    requires
        marks_of(v, m1),
        marks_of(v, m2),
    ensures
        same_marks(m1, m2),
{
    if let (Some(x), Some(y)) = (m1, m2) {
        let a = v->Some_0->Array_0;
        assert forall|i: int| 0 <= i < x@.len() implies x@[i] == y@[i] by {
            lemma_mark_unique(a@[i], x@[i], y@[i]);
        }
        assert(x@ =~= y@);
    }
}

proof fn lemma_mark_unique(j: JsonValue, a: Mark, b: Mark)
    requires
        mark_of(j, a),
        mark_of(j, b),
    ensures
        a == b,
{
    lemma_names();
    match a {
        Mark::BackgroundColor { attrs } => {
            assert(b is BackgroundColor);
            assert(attrs == b->BackgroundColor_attrs);
        },
        Mark::Code => assert(b is Code),
        Mark::Em => assert(b is Em),
        Mark::Link { attrs } => {
            assert(b is Link);
            assert(attrs == b->Link_attrs);
        },
        Mark::Strike => assert(b is Strike),
        Mark::Strong => assert(b is Strong),
        Mark::SubSup { attrs } => {
            assert(b is SubSup);
            assert(attrs == b->SubSup_attrs);
        },
        Mark::TextColor { attrs } => {
            assert(b is TextColor);
            assert(attrs == b->TextColor_attrs);
        },
        Mark::Underline => assert(b is Underline),
    }
}

proof fn lemma_cell_attrs_unique(v: JsonValue, x: TableCellAttrs, y: TableCellAttrs)
    requires
        table_cell_attrs_of(v, x),
        table_cell_attrs_of(v, y),
    ensures
        same_cell_attrs(x, y),
{
    if let (Some(p), Some(q)) = (x.colwidth, y.colwidth) {
        let o = v->Object_0;
        let a = member(o@, "colwidth"@)->Some_0->Array_0;
        assert forall|i: int| 0 <= i < p@.len() implies p@[i] == q@[i] by {
            assert(int_of(Some(a@[i]), p@[i] as int));
            assert(int_of(Some(a@[i]), q@[i] as int));
        }
        assert(p@ =~= q@);
    }
}

/// Reading what a well-formed tree is written as gives that tree back.
pub proof fn lemma_decode_of_encode(n: Node, j: JsonValue, m: Node)
    requires
        node_wf(n),
        encodes(n, j),
        decodes(j, m),
    ensures
        same_node(m, n),
{
    lemma_round_trip(n, j);
    lemma_decodes_unique(j, m, n);
}

/// Siblings keep their order: where the elements of an array read as the
/// trees `ns`, the array reads only as those trees, in that order.
pub proof fn lemma_children_in_order(a: Vec<JsonValue>, ns: Seq<Node>, c: Vec<Node>)
    requires
        ns.len() == a@.len(),
        forall|i: int| 0 <= i < a@.len() ==> decodes(#[trigger] a@[i], ns[i]),
        nodes_of(Some(JsonValue::Array(a)), c),
    ensures
        c@.len() == ns.len(),
        forall|i: int| 0 <= i < ns.len() ==> same_node(#[trigger] c@[i], ns[i]),
{
    assert forall|i: int| 0 <= i < ns.len() implies same_node(#[trigger] c@[i], ns[i]) by {
        lemma_decodes_unique(a@[i], c@[i], ns[i]);
    }
}

} // verus!
