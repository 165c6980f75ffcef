//! The texts of the discriminators and keys, told apart by their lengths
//! and first characters.
use vstd::prelude::*;

verus! {

/// Facts about the literal texts that let proofs tell one name from
/// another: two names differ in length or in an early character.
pub proof fn lemma_names()
    ensures
        "attrs"@.len() == 5,
        "attrs"@[0] == 'a',
        "attrs"@[1] == 't',
        "background"@.len() == 10,
        "background"@[0] == 'b',
        "background"@[1] == 'a',
        "backgroundColor"@.len() == 15,
        "backgroundColor"@[0] == 'b',
        "backgroundColor"@[1] == 'a',
        "blockquote"@.len() == 10,
        "blockquote"@[0] == 'b',
        "blockquote"@[1] == 'l',
        "bulletList"@.len() == 10,
        "bulletList"@[0] == 'b',
        "bulletList"@[1] == 'u',
        "code"@.len() == 4,
        "code"@[0] == 'c',
        "code"@[1] == 'o',
        "codeBlock"@.len() == 9,
        "codeBlock"@[0] == 'c',
        "codeBlock"@[1] == 'o',
        "collection"@.len() == 10,
        "collection"@[0] == 'c',
        "collection"@[1] == 'o',
        "color"@.len() == 5,
        "color"@[0] == 'c',
        "color"@[1] == 'o',
        "colspan"@.len() == 7,
        "colspan"@[0] == 'c',
        "colspan"@[1] == 'o',
        "colwidth"@.len() == 8,
        "colwidth"@[0] == 'c',
        "colwidth"@[1] == 'o',
        "content"@.len() == 7,
        "content"@[0] == 'c',
        "content"@[1] == 'o',
        "data"@.len() == 4,
        "data"@[0] == 'd',
        "data"@[1] == 'a',
        "date"@.len() == 4,
        "date"@[0] == 'd',
        "date"@[1] == 'a',
        "displayMode"@.len() == 11,
        "displayMode"@[0] == 'd',
        "displayMode"@[1] == 'i',
        "doc"@.len() == 3,
        "doc"@[0] == 'd',
        "doc"@[1] == 'o',
        "em"@.len() == 2,
        "em"@[0] == 'e',
        "em"@[1] == 'm',
        "emoji"@.len() == 5,
        "emoji"@[0] == 'e',
        "emoji"@[1] == 'm',
        "expand"@.len() == 6,
        "expand"@[0] == 'e',
        "expand"@[1] == 'x',
        "hardBreak"@.len() == 9,
        "hardBreak"@[0] == 'h',
        "hardBreak"@[1] == 'a',
        "heading"@.len() == 7,
        "heading"@[0] == 'h',
        "heading"@[1] == 'e',
        "height"@.len() == 6,
        "height"@[0] == 'h',
        "height"@[1] == 'e',
        "href"@.len() == 4,
        "href"@[0] == 'h',
        "href"@[1] == 'r',
        "id"@.len() == 2,
        "id"@[0] == 'i',
        "id"@[1] == 'd',
        "inlineCard"@.len() == 10,
        "inlineCard"@[0] == 'i',
        "inlineCard"@[1] == 'n',
        "isNumberColumnEnabled"@.len() == 21,
        "isNumberColumnEnabled"@[0] == 'i',
        "isNumberColumnEnabled"@[1] == 's',
        "language"@.len() == 8,
        "language"@[0] == 'l',
        "language"@[1] == 'a',
        "layout"@.len() == 6,
        "layout"@[0] == 'l',
        "layout"@[1] == 'a',
        "level"@.len() == 5,
        "level"@[0] == 'l',
        "level"@[1] == 'e',
        "link"@.len() == 4,
        "link"@[0] == 'l',
        "link"@[1] == 'i',
        "listItem"@.len() == 8,
        "listItem"@[0] == 'l',
        "listItem"@[1] == 'i',
        "localId"@.len() == 7,
        "localId"@[0] == 'l',
        "localId"@[1] == 'o',
        "marks"@.len() == 5,
        "marks"@[0] == 'm',
        "marks"@[1] == 'a',
        "media"@.len() == 5,
        "media"@[0] == 'm',
        "media"@[1] == 'e',
        "mediaGroup"@.len() == 10,
        "mediaGroup"@[0] == 'm',
        "mediaGroup"@[1] == 'e',
        "mediaSingle"@.len() == 11,
        "mediaSingle"@[0] == 'm',
        "mediaSingle"@[1] == 'e',
        "mention"@.len() == 7,
        "mention"@[0] == 'm',
        "mention"@[1] == 'e',
        "nestedExpand"@.len() == 12,
        "nestedExpand"@[0] == 'n',
        "nestedExpand"@[1] == 'e',
        "occurrenceKey"@.len() == 13,
        "occurrenceKey"@[0] == 'o',
        "occurrenceKey"@[1] == 'c',
        "order"@.len() == 5,
        "order"@[0] == 'o',
        "order"@[1] == 'r',
        "orderedList"@.len() == 11,
        "orderedList"@[0] == 'o',
        "orderedList"@[1] == 'r',
        "panel"@.len() == 5,
        "panel"@[0] == 'p',
        "panel"@[1] == 'a',
        "panelType"@.len() == 9,
        "panelType"@[0] == 'p',
        "panelType"@[1] == 'a',
        "paragraph"@.len() == 9,
        "paragraph"@[0] == 'p',
        "paragraph"@[1] == 'a',
        "rowspan"@.len() == 7,
        "rowspan"@[0] == 'r',
        "rowspan"@[1] == 'o',
        "rule"@.len() == 4,
        "rule"@[0] == 'r',
        "rule"@[1] == 'u',
        "shortName"@.len() == 9,
        "shortName"@[0] == 's',
        "shortName"@[1] == 'h',
        "status"@.len() == 6,
        "status"@[0] == 's',
        "status"@[1] == 't',
        "strike"@.len() == 6,
        "strike"@[0] == 's',
        "strike"@[1] == 't',
        "strike"@[3] == 'i',
        "strong"@.len() == 6,
        "strong"@[0] == 's',
        "strong"@[1] == 't',
        "strong"@[3] == 'o',
        "sub"@.len() == 3,
        "sub"@[0] == 's',
        "sub"@[1] == 'u',
        "sub"@[2] == 'b',
        "subSup"@.len() == 6,
        "subSup"@[0] == 's',
        "subSup"@[1] == 'u',
        "sup"@.len() == 3,
        "sup"@[0] == 's',
        "sup"@[1] == 'u',
        "sup"@[2] == 'p',
        "table"@.len() == 5,
        "table"@[0] == 't',
        "table"@[1] == 'a',
        "tableCell"@.len() == 9,
        "tableCell"@[0] == 't',
        "tableCell"@[1] == 'a',
        "tableHeader"@.len() == 11,
        "tableHeader"@[0] == 't',
        "tableHeader"@[1] == 'a',
        "tableRow"@.len() == 8,
        "tableRow"@[0] == 't',
        "tableRow"@[1] == 'a',
        "text"@.len() == 4,
        "text"@[0] == 't',
        "text"@[1] == 'e',
        "textColor"@.len() == 9,
        "textColor"@[0] == 't',
        "textColor"@[1] == 'e',
        "timestamp"@.len() == 9,
        "timestamp"@[0] == 't',
        "timestamp"@[1] == 'i',
        "title"@.len() == 5,
        "title"@[0] == 't',
        "title"@[1] == 'i',
        "type"@.len() == 4,
        "type"@[0] == 't',
        "type"@[1] == 'y',
        "underline"@.len() == 9,
        "underline"@[0] == 'u',
        "underline"@[1] == 'n',
        "url"@.len() == 3,
        "url"@[0] == 'u',
        "url"@[1] == 'r',
        "userType"@.len() == 8,
        "userType"@[0] == 'u',
        "userType"@[1] == 's',
        "version"@.len() == 7,
        "version"@[0] == 'v',
        "version"@[1] == 'e',
        "width"@.len() == 5,
        "width"@[0] == 'w',
        "width"@[1] == 'i',
        "widthType"@.len() == 9,
        "widthType"@[0] == 'w',
        "widthType"@[1] == 'i',
{
    reveal_strlit("attrs");
    reveal_strlit("background");
    reveal_strlit("backgroundColor");
    reveal_strlit("blockquote");
    reveal_strlit("bulletList");
    reveal_strlit("code");
    reveal_strlit("codeBlock");
    reveal_strlit("collection");
    reveal_strlit("color");
    reveal_strlit("colspan");
    reveal_strlit("colwidth");
    reveal_strlit("content");
    reveal_strlit("data");
    reveal_strlit("date");
    reveal_strlit("displayMode");
    reveal_strlit("doc");
    reveal_strlit("em");
    reveal_strlit("emoji");
    reveal_strlit("expand");
    reveal_strlit("hardBreak");
    reveal_strlit("heading");
    reveal_strlit("height");
    reveal_strlit("href");
    reveal_strlit("id");
    reveal_strlit("inlineCard");
    reveal_strlit("isNumberColumnEnabled");
    reveal_strlit("language");
    reveal_strlit("layout");
    reveal_strlit("level");
    reveal_strlit("link");
    reveal_strlit("listItem");
    reveal_strlit("localId");
    reveal_strlit("marks");
    reveal_strlit("media");
    reveal_strlit("mediaGroup");
    reveal_strlit("mediaSingle");
    reveal_strlit("mention");
    reveal_strlit("nestedExpand");
    reveal_strlit("occurrenceKey");
    reveal_strlit("order");
    reveal_strlit("orderedList");
    reveal_strlit("panel");
    reveal_strlit("panelType");
    reveal_strlit("paragraph");
    reveal_strlit("rowspan");
    reveal_strlit("rule");
    reveal_strlit("shortName");
    reveal_strlit("status");
    reveal_strlit("strike");
    reveal_strlit("strong");
    reveal_strlit("sub");
    reveal_strlit("subSup");
    reveal_strlit("sup");
    reveal_strlit("table");
    reveal_strlit("tableCell");
    reveal_strlit("tableHeader");
    reveal_strlit("tableRow");
    reveal_strlit("text");
    reveal_strlit("textColor");
    reveal_strlit("timestamp");
    reveal_strlit("title");
    reveal_strlit("type");
    reveal_strlit("underline");
    reveal_strlit("url");
    reveal_strlit("userType");
    reveal_strlit("version");
    reveal_strlit("width");
    reveal_strlit("widthType");
}

} // verus!
