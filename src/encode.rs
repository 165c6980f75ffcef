//! Writing a document tree as a generic JSON value.
use vstd::prelude::*;

use crate::decode::node_keys;
use crate::fields::u16s_of;
use crate::json::{key_allowed, keys_are, keys_within, member, opt_key, JsonNumber, JsonValue};
use crate::model::{
    CodeBlockAttrs, ColorAttrs, DateAttrs, EmojiAttrs, ExpandAttrs, HardBreakAttrs, HeadingAttrs, InlineCardAttrs,
    LinkAttrs, Mark, MediaAttrs, MediaSingleAttrs, MentionAttrs, Node, OrderedListAttrs, PanelAttrs, ParagraphAttrs,
    StatusAttrs, SubSupAttrs, TableAttrs, TableCellAttrs,
};
use crate::names::lemma_names;

verus! {

/// Appends the member `key: v`, where `key` is the `k`-th of `allowed`.
fn put<'a>(
    o: &mut Vec<(String, JsonValue)>,
    key: &'a str,
    v: JsonValue,
    allowed: Ghost<Seq<&str>>,
    k: Ghost<int>,
    ks: Ghost<Seq<&'a str>>,
) -> (r: Ghost<Seq<&'a str>>)
    requires
        keys_within(old(o)@, allowed@),
        keys_are(old(o)@, ks@),
        0 <= k@ < allowed@.len(),
        allowed@[k@]@ == key@,
    ensures
        keys_within(final(o)@, allowed@),
        final(o)@.len() == old(o)@.len() + 1,
        final(o)@.drop_last() == old(o)@,
        final(o)@.last().0@ == key@,
        final(o)@.last().1 == v,
        keys_are(final(o)@, r@),
        r@ == ks@.push(key),
        forall|k: Seq<char>| #[trigger] member(final(o)@, k) == if k == key@ {
            Some(v)
        } else {
            member(old(o)@, k)
        },
{
    let ghost before = o@;
    o.push((String::from_str(key), v));
    assert(o@.drop_last() == before);
    assert(key_allowed(o@.last().0@, allowed@));
    assert forall|i: int| 0 <= i < o@.len() implies key_allowed(#[trigger] o@[i].0@, allowed@) by {
        if i < before.len() {
            assert(o@[i] == before[i]);
        }
    }
    assert forall|i: int| 0 <= i < o@.len() implies #[trigger] o@[i].0@ == ks@.push(key)[i]@ by {
        if i < before.len() {
            assert(o@[i] == before[i]);
        }
    }
    Ghost(ks@.push(key))
}

fn number_value(x: &JsonNumber) -> (r: JsonValue)
    ensures
        r == JsonValue::Number(*x),
{
    match x {
        JsonNumber::Int(i) => JsonValue::Number(JsonNumber::Int(*i)),
        JsonNumber::Decimal(t) => JsonValue::Number(JsonNumber::Decimal(t.clone())),
    }
}

fn u16s_value(w: &Vec<u16>) -> (r: JsonValue)
    ensures
        r matches JsonValue::Array(a) && u16s_of(a@, w@),
{
    let mut a: Vec<JsonValue> = Vec::new();
    let mut k: usize = 0;
    while k < w.len()
        invariant
            k <= w@.len(),
            a@.len() == k,
            forall|x: int| 0 <= x < k ==> #[trigger] a@[x] == JsonValue::Number(JsonNumber::Int(w@[x] as i64)),
        decreases w@.len() - k,
    {
        a.push(JsonValue::Number(JsonNumber::Int(w[k] as i64)));
        k = k + 1;
    }
    JsonValue::Array(a)
}

/// `v` is how `a` is written.
pub open spec fn color_attrs_enc(v: JsonValue, a: ColorAttrs) -> bool {
    &&& v matches JsonValue::Object(o)
    &&& keys_are(o@, seq!["color"])
    &&& keys_within(o@, seq!["color"])
    &&& member(o@, "color"@) == Some(JsonValue::Str(a.color))
}

pub fn write_color_attrs(a: &ColorAttrs) -> (r: JsonValue)
    ensures
        color_attrs_enc(r, *a),
{
    proof {
        lemma_names();
    }
    let ghost keys = seq!["color"];
    let mut o: Vec<(String, JsonValue)> = Vec::new();
    let mut ks: Ghost<Seq<&str>> = Ghost(Seq::empty());
    ks = put(&mut o, "color", JsonValue::Str(a.color.clone()), Ghost(keys), Ghost(0), ks);
    assert(ks@ =~= seq!["color"]);
    JsonValue::Object(o)
}

/// `v` is how `a` is written.
pub open spec fn code_block_attrs_enc(v: JsonValue, a: CodeBlockAttrs) -> bool {
    &&& v matches JsonValue::Object(o)
    &&& keys_are(o@, seq!["language"])
    &&& keys_within(o@, seq!["language"])
    &&& member(o@, "language"@) == Some(JsonValue::Str(a.language))
}

pub fn write_code_block_attrs(a: &CodeBlockAttrs) -> (r: JsonValue)
    ensures
        code_block_attrs_enc(r, *a),
{
    proof {
        lemma_names();
    }
    let ghost keys = seq!["language"];
    let mut o: Vec<(String, JsonValue)> = Vec::new();
    let mut ks: Ghost<Seq<&str>> = Ghost(Seq::empty());
    ks = put(&mut o, "language", JsonValue::Str(a.language.clone()), Ghost(keys), Ghost(0), ks);
    assert(ks@ =~= seq!["language"]);
    JsonValue::Object(o)
}

/// `v` is how `a` is written.
pub open spec fn date_attrs_enc(v: JsonValue, a: DateAttrs) -> bool {
    &&& v matches JsonValue::Object(o)
    &&& keys_are(o@, seq!["timestamp"])
    &&& keys_within(o@, seq!["timestamp"])
    &&& member(o@, "timestamp"@) == Some(JsonValue::Str(a.timestamp))
}

pub fn write_date_attrs(a: &DateAttrs) -> (r: JsonValue)
    ensures
        date_attrs_enc(r, *a),
{
    proof {
        lemma_names();
    }
    let ghost keys = seq!["timestamp"];
    let mut o: Vec<(String, JsonValue)> = Vec::new();
    let mut ks: Ghost<Seq<&str>> = Ghost(Seq::empty());
    ks = put(&mut o, "timestamp", JsonValue::Str(a.timestamp.clone()), Ghost(keys), Ghost(0), ks);
    assert(ks@ =~= seq!["timestamp"]);
    JsonValue::Object(o)
}

/// `v` is how `a` is written.
pub open spec fn emoji_attrs_enc(v: JsonValue, a: EmojiAttrs) -> bool {
    &&& v matches JsonValue::Object(o)
    &&& keys_are(o@, seq!["shortName"] + opt_key(a.id is Some, "id") + opt_key(a.text is Some, "text"))
    &&& keys_within(o@, seq!["shortName", "id", "text"])
    &&& member(o@, "shortName"@) == Some(JsonValue::Str(a.short_name))
    &&& (match a.id {
        None => member(o@, "id"@) is None,
        Some(s) => member(o@, "id"@) == Some(JsonValue::Str(s)),
    })
    &&& (match a.text {
        None => member(o@, "text"@) is None,
        Some(s) => member(o@, "text"@) == Some(JsonValue::Str(s)),
    })
}

pub fn write_emoji_attrs(a: &EmojiAttrs) -> (r: JsonValue)
    ensures
        emoji_attrs_enc(r, *a),
{
    proof {
        lemma_names();
    }
    let ghost keys = seq!["shortName", "id", "text"];
    let mut o: Vec<(String, JsonValue)> = Vec::new();
    let mut ks: Ghost<Seq<&str>> = Ghost(Seq::empty());
    ks = put(&mut o, "shortName", JsonValue::Str(a.short_name.clone()), Ghost(keys), Ghost(0), ks);
    if let Some(x) = &a.id {
        ks = put(&mut o, "id", JsonValue::Str(x.clone()), Ghost(keys), Ghost(1), ks);
    }
    if let Some(x) = &a.text {
        ks = put(&mut o, "text", JsonValue::Str(x.clone()), Ghost(keys), Ghost(2), ks);
    }
    assert(ks@ =~= seq!["shortName"] + opt_key(a.id is Some, "id") + opt_key(a.text is Some, "text"));
    JsonValue::Object(o)
}

/// `v` is how `a` is written.
pub open spec fn expand_attrs_enc(v: JsonValue, a: ExpandAttrs) -> bool {
    &&& v matches JsonValue::Object(o)
    &&& keys_are(o@, seq!["title"])
    &&& keys_within(o@, seq!["title"])
    &&& member(o@, "title"@) == Some(JsonValue::Str(a.title))
}

pub fn write_expand_attrs(a: &ExpandAttrs) -> (r: JsonValue)
    ensures
        expand_attrs_enc(r, *a),
{
    proof {
        lemma_names();
    }
    let ghost keys = seq!["title"];
    let mut o: Vec<(String, JsonValue)> = Vec::new();
    let mut ks: Ghost<Seq<&str>> = Ghost(Seq::empty());
    ks = put(&mut o, "title", JsonValue::Str(a.title.clone()), Ghost(keys), Ghost(0), ks);
    assert(ks@ =~= seq!["title"]);
    JsonValue::Object(o)
}

/// `v` is how `a` is written.
pub open spec fn hard_break_attrs_enc(v: JsonValue, a: HardBreakAttrs) -> bool {
    &&& v matches JsonValue::Object(o)
    &&& keys_are(o@, seq!["text"])
    &&& keys_within(o@, seq!["text"])
    &&& member(o@, "text"@) == Some(JsonValue::Str(a.text))
}

pub fn write_hard_break_attrs(a: &HardBreakAttrs) -> (r: JsonValue)
    ensures
        hard_break_attrs_enc(r, *a),
{
    proof {
        lemma_names();
    }
    let ghost keys = seq!["text"];
    let mut o: Vec<(String, JsonValue)> = Vec::new();
    let mut ks: Ghost<Seq<&str>> = Ghost(Seq::empty());
    ks = put(&mut o, "text", JsonValue::Str(a.text.clone()), Ghost(keys), Ghost(0), ks);
    assert(ks@ =~= seq!["text"]);
    JsonValue::Object(o)
}

/// `v` is how `a` is written.
pub open spec fn heading_attrs_enc(v: JsonValue, a: HeadingAttrs) -> bool {
    &&& v matches JsonValue::Object(o)
    &&& keys_are(o@, seq!["level"] + opt_key(a.local_id is Some, "localId"))
    &&& keys_within(o@, seq!["level", "localId"])
    &&& member(o@, "level"@) == Some(JsonValue::Number(JsonNumber::Int(a.level as i64)))
    &&& (match a.local_id {
        None => member(o@, "localId"@) is None,
        Some(s) => member(o@, "localId"@) == Some(JsonValue::Str(s)),
    })
}

pub fn write_heading_attrs(a: &HeadingAttrs) -> (r: JsonValue)
    ensures
        heading_attrs_enc(r, *a),
{
    proof {
        lemma_names();
    }
    let ghost keys = seq!["level", "localId"];
    let mut o: Vec<(String, JsonValue)> = Vec::new();
    let mut ks: Ghost<Seq<&str>> = Ghost(Seq::empty());
    ks = put(&mut o, "level", JsonValue::Number(JsonNumber::Int(a.level as i64)), Ghost(keys), Ghost(0), ks);
    if let Some(x) = &a.local_id {
        ks = put(&mut o, "localId", JsonValue::Str(x.clone()), Ghost(keys), Ghost(1), ks);
    }
    assert(ks@ =~= seq!["level"] + opt_key(a.local_id is Some, "localId"));
    JsonValue::Object(o)
}

/// `v` is how `a` is written.
pub open spec fn inline_card_attrs_enc(v: JsonValue, a: InlineCardAttrs) -> bool {
    &&& v matches JsonValue::Object(o)
    &&& keys_are(o@, opt_key(a.data is Some, "data") + opt_key(a.url is Some, "url"))
    &&& keys_within(o@, seq!["data", "url"])
    &&& (match a.data {
        None => member(o@, "data"@) is None,
        Some(s) => member(o@, "data"@) == Some(JsonValue::Str(s)),
    })
    &&& (match a.url {
        None => member(o@, "url"@) is None,
        Some(s) => member(o@, "url"@) == Some(JsonValue::Str(s)),
    })
}

pub fn write_inline_card_attrs(a: &InlineCardAttrs) -> (r: JsonValue)
    ensures
        inline_card_attrs_enc(r, *a),
{
    proof {
        lemma_names();
    }
    let ghost keys = seq!["data", "url"];
    let mut o: Vec<(String, JsonValue)> = Vec::new();
    let mut ks: Ghost<Seq<&str>> = Ghost(Seq::empty());
    if let Some(x) = &a.data {
        ks = put(&mut o, "data", JsonValue::Str(x.clone()), Ghost(keys), Ghost(0), ks);
    }
    if let Some(x) = &a.url {
        ks = put(&mut o, "url", JsonValue::Str(x.clone()), Ghost(keys), Ghost(1), ks);
    }
    assert(ks@ =~= opt_key(a.data is Some, "data") + opt_key(a.url is Some, "url"));
    JsonValue::Object(o)
}

/// `v` is how `a` is written.
pub open spec fn link_attrs_enc(v: JsonValue, a: LinkAttrs) -> bool {
    &&& v matches JsonValue::Object(o)
    &&& keys_are(o@, opt_key(a.collection is Some, "collection") + seq!["href"] + opt_key(a.id is Some, "id") + opt_key(a.occurrence_key is Some, "occurrenceKey") + opt_key(a.title is Some, "title"))
    &&& keys_within(o@, seq!["collection", "href", "id", "occurrenceKey", "title"])
    &&& (match a.collection {
        None => member(o@, "collection"@) is None,
        Some(s) => member(o@, "collection"@) == Some(JsonValue::Str(s)),
    })
    &&& member(o@, "href"@) == Some(JsonValue::Str(a.href))
    &&& (match a.id {
        None => member(o@, "id"@) is None,
        Some(s) => member(o@, "id"@) == Some(JsonValue::Str(s)),
    })
    &&& (match a.occurrence_key {
        None => member(o@, "occurrenceKey"@) is None,
        Some(s) => member(o@, "occurrenceKey"@) == Some(JsonValue::Str(s)),
    })
    &&& (match a.title {
        None => member(o@, "title"@) is None,
        Some(s) => member(o@, "title"@) == Some(JsonValue::Str(s)),
    })
}

pub fn write_link_attrs(a: &LinkAttrs) -> (r: JsonValue)
    ensures
        link_attrs_enc(r, *a),
{
    proof {
        lemma_names();
    }
    let ghost keys = seq!["collection", "href", "id", "occurrenceKey", "title"];
    let mut o: Vec<(String, JsonValue)> = Vec::new();
    let mut ks: Ghost<Seq<&str>> = Ghost(Seq::empty());
    if let Some(x) = &a.collection {
        ks = put(&mut o, "collection", JsonValue::Str(x.clone()), Ghost(keys), Ghost(0), ks);
    }
    ks = put(&mut o, "href", JsonValue::Str(a.href.clone()), Ghost(keys), Ghost(1), ks);
    if let Some(x) = &a.id {
        ks = put(&mut o, "id", JsonValue::Str(x.clone()), Ghost(keys), Ghost(2), ks);
    }
    if let Some(x) = &a.occurrence_key {
        ks = put(&mut o, "occurrenceKey", JsonValue::Str(x.clone()), Ghost(keys), Ghost(3), ks);
    }
    if let Some(x) = &a.title {
        ks = put(&mut o, "title", JsonValue::Str(x.clone()), Ghost(keys), Ghost(4), ks);
    }
    assert(ks@ =~= opt_key(a.collection is Some, "collection") + seq!["href"] + opt_key(a.id is Some, "id") + opt_key(a.occurrence_key is Some, "occurrenceKey") + opt_key(a.title is Some, "title"));
    JsonValue::Object(o)
}

/// `v` is how `a` is written.
pub open spec fn media_attrs_enc(v: JsonValue, a: MediaAttrs) -> bool {
    &&& v matches JsonValue::Object(o)
    &&& keys_are(o@, seq!["type"] + opt_key(a.width is Some, "width") + opt_key(a.height is Some, "height") + seq!["id", "collection"] + opt_key(a.occurrence_key is Some, "occurrenceKey"))
    &&& keys_within(o@, seq!["type", "width", "height", "id", "collection", "occurrenceKey"])
    &&& member(o@, "type"@) == Some(JsonValue::Str(a.type_))
    &&& (match a.width {
        None => member(o@, "width"@) is None,
        Some(x) => member(o@, "width"@) == Some(JsonValue::Number(JsonNumber::Int(x as i64))),
    })
    &&& (match a.height {
        None => member(o@, "height"@) is None,
        Some(x) => member(o@, "height"@) == Some(JsonValue::Number(JsonNumber::Int(x as i64))),
    })
    &&& member(o@, "id"@) == Some(JsonValue::Str(a.id))
    &&& member(o@, "collection"@) == Some(JsonValue::Str(a.collection))
    &&& (match a.occurrence_key {
        None => member(o@, "occurrenceKey"@) is None,
        Some(s) => member(o@, "occurrenceKey"@) == Some(JsonValue::Str(s)),
    })
}

pub fn write_media_attrs(a: &MediaAttrs) -> (r: JsonValue)
    ensures
        media_attrs_enc(r, *a),
{
    proof {
        lemma_names();
    }
    let ghost keys = seq!["type", "width", "height", "id", "collection", "occurrenceKey"];
    let mut o: Vec<(String, JsonValue)> = Vec::new();
    let mut ks: Ghost<Seq<&str>> = Ghost(Seq::empty());
    ks = put(&mut o, "type", JsonValue::Str(a.type_.clone()), Ghost(keys), Ghost(0), ks);
    if let Some(x) = &a.width {
        ks = put(&mut o, "width", JsonValue::Number(JsonNumber::Int(*x as i64)), Ghost(keys), Ghost(1), ks);
    }
    if let Some(x) = &a.height {
        ks = put(&mut o, "height", JsonValue::Number(JsonNumber::Int(*x as i64)), Ghost(keys), Ghost(2), ks);
    }
    ks = put(&mut o, "id", JsonValue::Str(a.id.clone()), Ghost(keys), Ghost(3), ks);
    ks = put(&mut o, "collection", JsonValue::Str(a.collection.clone()), Ghost(keys), Ghost(4), ks);
    if let Some(x) = &a.occurrence_key {
        ks = put(&mut o, "occurrenceKey", JsonValue::Str(x.clone()), Ghost(keys), Ghost(5), ks);
    }
    assert(ks@ =~= seq!["type"] + opt_key(a.width is Some, "width") + opt_key(a.height is Some, "height") + seq!["id", "collection"] + opt_key(a.occurrence_key is Some, "occurrenceKey"));
    JsonValue::Object(o)
}

/// `v` is how `a` is written.
pub open spec fn media_single_attrs_enc(v: JsonValue, a: MediaSingleAttrs) -> bool {
    &&& v matches JsonValue::Object(o)
    &&& keys_are(o@, seq!["layout"] + opt_key(a.width is Some, "width") + opt_key(a.width_type is Some, "widthType"))
    &&& keys_within(o@, seq!["layout", "width", "widthType"])
    &&& member(o@, "layout"@) == Some(JsonValue::Str(a.layout))
    &&& (match a.width {
        None => member(o@, "width"@) is None,
        Some(x) => member(o@, "width"@) == Some(JsonValue::Number(x)),
    })
    &&& (match a.width_type {
        None => member(o@, "widthType"@) is None,
        Some(s) => member(o@, "widthType"@) == Some(JsonValue::Str(s)),
    })
}

pub fn write_media_single_attrs(a: &MediaSingleAttrs) -> (r: JsonValue)
    ensures
        media_single_attrs_enc(r, *a),
{
    proof {
        lemma_names();
    }
    let ghost keys = seq!["layout", "width", "widthType"];
    let mut o: Vec<(String, JsonValue)> = Vec::new();
    let mut ks: Ghost<Seq<&str>> = Ghost(Seq::empty());
    ks = put(&mut o, "layout", JsonValue::Str(a.layout.clone()), Ghost(keys), Ghost(0), ks);
    if let Some(x) = &a.width {
        ks = put(&mut o, "width", number_value(x), Ghost(keys), Ghost(1), ks);
    }
    if let Some(x) = &a.width_type {
        ks = put(&mut o, "widthType", JsonValue::Str(x.clone()), Ghost(keys), Ghost(2), ks);
    }
    assert(ks@ =~= seq!["layout"] + opt_key(a.width is Some, "width") + opt_key(a.width_type is Some, "widthType"));
    JsonValue::Object(o)
}

/// `v` is how `a` is written.
pub open spec fn mention_attrs_enc(v: JsonValue, a: MentionAttrs) -> bool {
    &&& v matches JsonValue::Object(o)
    &&& keys_are(o@, seq!["id"] + opt_key(a.text is Some, "text") + opt_key(a.user_type is Some, "userType"))
    &&& keys_within(o@, seq!["id", "text", "userType"])
    &&& member(o@, "id"@) == Some(JsonValue::Str(a.id))
    &&& (match a.text {
        None => member(o@, "text"@) is None,
        Some(s) => member(o@, "text"@) == Some(JsonValue::Str(s)),
    })
    &&& (match a.user_type {
        None => member(o@, "userType"@) is None,
        Some(s) => member(o@, "userType"@) == Some(JsonValue::Str(s)),
    })
}

pub fn write_mention_attrs(a: &MentionAttrs) -> (r: JsonValue)
    ensures
        mention_attrs_enc(r, *a),
{
    proof {
        lemma_names();
    }
    let ghost keys = seq!["id", "text", "userType"];
    let mut o: Vec<(String, JsonValue)> = Vec::new();
    let mut ks: Ghost<Seq<&str>> = Ghost(Seq::empty());
    ks = put(&mut o, "id", JsonValue::Str(a.id.clone()), Ghost(keys), Ghost(0), ks);
    if let Some(x) = &a.text {
        ks = put(&mut o, "text", JsonValue::Str(x.clone()), Ghost(keys), Ghost(1), ks);
    }
    if let Some(x) = &a.user_type {
        ks = put(&mut o, "userType", JsonValue::Str(x.clone()), Ghost(keys), Ghost(2), ks);
    }
    assert(ks@ =~= seq!["id"] + opt_key(a.text is Some, "text") + opt_key(a.user_type is Some, "userType"));
    JsonValue::Object(o)
}

/// `v` is how `a` is written.
pub open spec fn ordered_list_attrs_enc(v: JsonValue, a: OrderedListAttrs) -> bool {
    &&& v matches JsonValue::Object(o)
    &&& keys_are(o@, seq!["order"])
    &&& keys_within(o@, seq!["order"])
    &&& member(o@, "order"@) == Some(JsonValue::Number(JsonNumber::Int(a.order as i64)))
}

pub fn write_ordered_list_attrs(a: &OrderedListAttrs) -> (r: JsonValue)
    ensures
        ordered_list_attrs_enc(r, *a),
{
    proof {
        lemma_names();
    }
    let ghost keys = seq!["order"];
    let mut o: Vec<(String, JsonValue)> = Vec::new();
    let mut ks: Ghost<Seq<&str>> = Ghost(Seq::empty());
    ks = put(&mut o, "order", JsonValue::Number(JsonNumber::Int(a.order as i64)), Ghost(keys), Ghost(0), ks);
    assert(ks@ =~= seq!["order"]);
    JsonValue::Object(o)
}

/// `v` is how `a` is written.
pub open spec fn panel_attrs_enc(v: JsonValue, a: PanelAttrs) -> bool {
    &&& v matches JsonValue::Object(o)
    &&& keys_are(o@, seq!["panelType"])
    &&& keys_within(o@, seq!["panelType"])
    &&& member(o@, "panelType"@) == Some(JsonValue::Str(a.panel_type))
}

pub fn write_panel_attrs(a: &PanelAttrs) -> (r: JsonValue)
    ensures
        panel_attrs_enc(r, *a),
{
    proof {
        lemma_names();
    }
    let ghost keys = seq!["panelType"];
    let mut o: Vec<(String, JsonValue)> = Vec::new();
    let mut ks: Ghost<Seq<&str>> = Ghost(Seq::empty());
    ks = put(&mut o, "panelType", JsonValue::Str(a.panel_type.clone()), Ghost(keys), Ghost(0), ks);
    assert(ks@ =~= seq!["panelType"]);
    JsonValue::Object(o)
}

/// `v` is how `a` is written.
pub open spec fn paragraph_attrs_enc(v: JsonValue, a: ParagraphAttrs) -> bool {
    &&& v matches JsonValue::Object(o)
    &&& keys_are(o@, seq!["localId"])
    &&& keys_within(o@, seq!["localId"])
    &&& member(o@, "localId"@) == Some(JsonValue::Str(a.local_id))
}

pub fn write_paragraph_attrs(a: &ParagraphAttrs) -> (r: JsonValue)
    ensures
        paragraph_attrs_enc(r, *a),
{
    proof {
        lemma_names();
    }
    let ghost keys = seq!["localId"];
    let mut o: Vec<(String, JsonValue)> = Vec::new();
    let mut ks: Ghost<Seq<&str>> = Ghost(Seq::empty());
    ks = put(&mut o, "localId", JsonValue::Str(a.local_id.clone()), Ghost(keys), Ghost(0), ks);
    assert(ks@ =~= seq!["localId"]);
    JsonValue::Object(o)
}

/// `v` is how `a` is written.
pub open spec fn status_attrs_enc(v: JsonValue, a: StatusAttrs) -> bool {
    &&& v matches JsonValue::Object(o)
    &&& keys_are(o@, opt_key(a.local_id is Some, "localId") + seq!["text", "color"])
    &&& keys_within(o@, seq!["localId", "text", "color"])
    &&& (match a.local_id {
        None => member(o@, "localId"@) is None,
        Some(s) => member(o@, "localId"@) == Some(JsonValue::Str(s)),
    })
    &&& member(o@, "text"@) == Some(JsonValue::Str(a.text))
    &&& member(o@, "color"@) == Some(JsonValue::Str(a.color))
}

pub fn write_status_attrs(a: &StatusAttrs) -> (r: JsonValue)
    ensures
        status_attrs_enc(r, *a),
{
    proof {
        lemma_names();
    }
    let ghost keys = seq!["localId", "text", "color"];
    let mut o: Vec<(String, JsonValue)> = Vec::new();
    let mut ks: Ghost<Seq<&str>> = Ghost(Seq::empty());
    if let Some(x) = &a.local_id {
        ks = put(&mut o, "localId", JsonValue::Str(x.clone()), Ghost(keys), Ghost(0), ks);
    }
    ks = put(&mut o, "text", JsonValue::Str(a.text.clone()), Ghost(keys), Ghost(1), ks);
    ks = put(&mut o, "color", JsonValue::Str(a.color.clone()), Ghost(keys), Ghost(2), ks);
    assert(ks@ =~= opt_key(a.local_id is Some, "localId") + seq!["text", "color"]);
    JsonValue::Object(o)
}

/// `v` is how `a` is written.
pub open spec fn table_attrs_enc(v: JsonValue, a: TableAttrs) -> bool {
    &&& v matches JsonValue::Object(o)
    &&& keys_are(o@, opt_key(a.display_mode is Some, "displayMode") + opt_key(a.is_number_column_enabled is Some, "isNumberColumnEnabled") + opt_key(a.layout is Some, "layout") + opt_key(a.width is Some, "width"))
    &&& keys_within(o@, seq!["displayMode", "isNumberColumnEnabled", "layout", "width"])
    &&& (match a.display_mode {
        None => member(o@, "displayMode"@) is None,
        Some(s) => member(o@, "displayMode"@) == Some(JsonValue::Str(s)),
    })
    &&& (match a.is_number_column_enabled {
        None => member(o@, "isNumberColumnEnabled"@) is None,
        Some(b) => member(o@, "isNumberColumnEnabled"@) == Some(JsonValue::Bool(b)),
    })
    &&& (match a.layout {
        None => member(o@, "layout"@) is None,
        Some(s) => member(o@, "layout"@) == Some(JsonValue::Str(s)),
    })
    &&& (match a.width {
        None => member(o@, "width"@) is None,
        Some(x) => member(o@, "width"@) == Some(JsonValue::Number(JsonNumber::Int(x as i64))),
    })
}

pub fn write_table_attrs(a: &TableAttrs) -> (r: JsonValue)
    ensures
        table_attrs_enc(r, *a),
{
    proof {
        lemma_names();
    }
    let ghost keys = seq!["displayMode", "isNumberColumnEnabled", "layout", "width"];
    let mut o: Vec<(String, JsonValue)> = Vec::new();
    let mut ks: Ghost<Seq<&str>> = Ghost(Seq::empty());
    if let Some(x) = &a.display_mode {
        ks = put(&mut o, "displayMode", JsonValue::Str(x.clone()), Ghost(keys), Ghost(0), ks);
    }
    if let Some(x) = &a.is_number_column_enabled {
        ks = put(&mut o, "isNumberColumnEnabled", JsonValue::Bool(*x), Ghost(keys), Ghost(1), ks);
    }
    if let Some(x) = &a.layout {
        ks = put(&mut o, "layout", JsonValue::Str(x.clone()), Ghost(keys), Ghost(2), ks);
    }
    if let Some(x) = &a.width {
        ks = put(&mut o, "width", JsonValue::Number(JsonNumber::Int(*x as i64)), Ghost(keys), Ghost(3), ks);
    }
    assert(ks@ =~= opt_key(a.display_mode is Some, "displayMode") + opt_key(a.is_number_column_enabled is Some, "isNumberColumnEnabled") + opt_key(a.layout is Some, "layout") + opt_key(a.width is Some, "width"));
    JsonValue::Object(o)
}

/// `v` is how `a` is written.
pub open spec fn table_cell_attrs_enc(v: JsonValue, a: TableCellAttrs) -> bool {
    &&& v matches JsonValue::Object(o)
    &&& keys_are(o@, opt_key(a.background is Some, "background") + opt_key(a.colspan is Some, "colspan") + opt_key(a.colwidth is Some, "colwidth") + opt_key(a.rowspan is Some, "rowspan"))
    &&& keys_within(o@, seq!["background", "colspan", "colwidth", "rowspan"])
    &&& (match a.background {
        None => member(o@, "background"@) is None,
        Some(s) => member(o@, "background"@) == Some(JsonValue::Str(s)),
    })
    &&& (match a.colspan {
        None => member(o@, "colspan"@) is None,
        Some(x) => member(o@, "colspan"@) == Some(JsonValue::Number(JsonNumber::Int(x as i64))),
    })
    &&& (match a.colwidth {
        None => member(o@, "colwidth"@) is None,
        Some(w) => member(o@, "colwidth"@) matches Some(JsonValue::Array(arr)) && u16s_of(arr@, w@),
    })
    &&& (match a.rowspan {
        None => member(o@, "rowspan"@) is None,
        Some(x) => member(o@, "rowspan"@) == Some(JsonValue::Number(JsonNumber::Int(x as i64))),
    })
}

pub fn write_table_cell_attrs(a: &TableCellAttrs) -> (r: JsonValue)
    ensures
        table_cell_attrs_enc(r, *a),
{
    proof {
        lemma_names();
    }
    let ghost keys = seq!["background", "colspan", "colwidth", "rowspan"];
    let mut o: Vec<(String, JsonValue)> = Vec::new();
    let mut ks: Ghost<Seq<&str>> = Ghost(Seq::empty());
    if let Some(x) = &a.background {
        ks = put(&mut o, "background", JsonValue::Str(x.clone()), Ghost(keys), Ghost(0), ks);
    }
    if let Some(x) = &a.colspan {
        ks = put(&mut o, "colspan", JsonValue::Number(JsonNumber::Int(*x as i64)), Ghost(keys), Ghost(1), ks);
    }
    if let Some(x) = &a.colwidth {
        ks = put(&mut o, "colwidth", u16s_value(x), Ghost(keys), Ghost(2), ks);
    }
    if let Some(x) = &a.rowspan {
        ks = put(&mut o, "rowspan", JsonValue::Number(JsonNumber::Int(*x as i64)), Ghost(keys), Ghost(3), ks);
    }
    assert(ks@ =~= opt_key(a.background is Some, "background") + opt_key(a.colspan is Some, "colspan") + opt_key(a.colwidth is Some, "colwidth") + opt_key(a.rowspan is Some, "rowspan"));
    JsonValue::Object(o)
}

/// `v` is how `a` is written.
pub open spec fn sub_sup_attrs_enc(v: JsonValue, a: SubSupAttrs) -> bool {
    &&& v matches JsonValue::Object(o)
    &&& keys_are(o@, seq!["type"])
    &&& keys_within(o@, seq!["type"])
    &&& member(o@, "type"@) matches Some(JsonValue::Str(t))
    &&& match a {
        SubSupAttrs::Sup => t@ == "sup"@,
        SubSupAttrs::Sub => t@ == "sub"@,
    }
}

pub fn write_sub_sup_attrs(a: &SubSupAttrs) -> (r: JsonValue)
    ensures
        sub_sup_attrs_enc(r, *a),
{
    let ghost keys = seq!["type"];
    let mut o: Vec<(String, JsonValue)> = Vec::new();
    let mut ks: Ghost<Seq<&str>> = Ghost(Seq::empty());
    let t = match a {
        SubSupAttrs::Sup => String::from_str("sup"),
        SubSupAttrs::Sub => String::from_str("sub"),
    };
    ks = put(&mut o, "type", JsonValue::Str(t), Ghost(keys), Ghost(0), ks);
    assert(ks@ =~= seq!["type"]);
    JsonValue::Object(o)
}

/// The keys of a written mark, in order.
pub open spec fn mark_keys(m: Mark) -> Seq<&'static str> {
    match m {
        Mark::BackgroundColor { .. } => seq!["type", "attrs"],
        Mark::Code => seq!["type"],
        Mark::Em => seq!["type"],
        Mark::Link { .. } => seq!["type", "attrs"],
        Mark::Strike => seq!["type"],
        Mark::Strong => seq!["type"],
        Mark::SubSup { .. } => seq!["type", "attrs"],
        Mark::TextColor { .. } => seq!["type", "attrs"],
        Mark::Underline => seq!["type"],
    }
}

/// The discriminator of a mark variant.
pub open spec fn mark_tag(m: Mark) -> &'static str {
    match m {
        Mark::BackgroundColor { .. } => "backgroundColor",
        Mark::Code => "code",
        Mark::Em => "em",
        Mark::Link { .. } => "link",
        Mark::Strike => "strike",
        Mark::Strong => "strong",
        Mark::SubSup { .. } => "subSup",
        Mark::TextColor { .. } => "textColor",
        Mark::Underline => "underline",
    }
}

/// `j` is how the mark `m` is written.
pub open spec fn mark_enc(m: Mark, j: JsonValue) -> bool {
    &&& j matches JsonValue::Object(o)
    &&& keys_are(o@, mark_keys(m))
    &&& member(o@, "type"@) matches Some(JsonValue::Str(t))
    &&& t@ == mark_tag(m)@
    &&& match m {
        Mark::BackgroundColor { attrs } => keys_within(o@, seq!["type", "attrs"]) && (member(o@, "attrs"@) matches Some(a) && color_attrs_enc(a, attrs)),
        Mark::Code => keys_within(o@, seq!["type"]),
        Mark::Em => keys_within(o@, seq!["type"]),
        Mark::Link { attrs } => keys_within(o@, seq!["type", "attrs"]) && (member(o@, "attrs"@) matches Some(a) && link_attrs_enc(a, attrs)),
        Mark::Strike => keys_within(o@, seq!["type"]),
        Mark::Strong => keys_within(o@, seq!["type"]),
        Mark::SubSup { attrs } => keys_within(o@, seq!["type", "attrs"]) && (member(o@, "attrs"@) matches Some(a) && sub_sup_attrs_enc(a, attrs)),
        Mark::TextColor { attrs } => keys_within(o@, seq!["type", "attrs"]) && (member(o@, "attrs"@) matches Some(a) && color_attrs_enc(a, attrs)),
        Mark::Underline => keys_within(o@, seq!["type"]),
    }
}

/// Writes one mark.
pub fn write_mark(m: &Mark) -> (r: JsonValue)
    ensures
        mark_enc(*m, r),
{
    proof {
        lemma_names();
    }
    let mut o: Vec<(String, JsonValue)> = Vec::new();
    let mut ks: Ghost<Seq<&str>> = Ghost(Seq::empty());
    match m {
        Mark::BackgroundColor { attrs } => {
            let ghost keys = seq!["type", "attrs"];
            ks = put(&mut o, "type", JsonValue::Str(String::from_str("backgroundColor")), Ghost(keys), Ghost(0), ks);
            ks = put(&mut o, "attrs", write_color_attrs(attrs), Ghost(keys), Ghost(1), ks);
        },
        Mark::Code => {
            let ghost keys = seq!["type"];
            ks = put(&mut o, "type", JsonValue::Str(String::from_str("code")), Ghost(keys), Ghost(0), ks);
        },
        Mark::Em => {
            let ghost keys = seq!["type"];
            ks = put(&mut o, "type", JsonValue::Str(String::from_str("em")), Ghost(keys), Ghost(0), ks);
        },
        Mark::Link { attrs } => {
            let ghost keys = seq!["type", "attrs"];
            ks = put(&mut o, "type", JsonValue::Str(String::from_str("link")), Ghost(keys), Ghost(0), ks);
            ks = put(&mut o, "attrs", write_link_attrs(attrs), Ghost(keys), Ghost(1), ks);
        },
        Mark::Strike => {
            let ghost keys = seq!["type"];
            ks = put(&mut o, "type", JsonValue::Str(String::from_str("strike")), Ghost(keys), Ghost(0), ks);
        },
        Mark::Strong => {
            let ghost keys = seq!["type"];
            ks = put(&mut o, "type", JsonValue::Str(String::from_str("strong")), Ghost(keys), Ghost(0), ks);
        },
        Mark::SubSup { attrs } => {
            let ghost keys = seq!["type", "attrs"];
            ks = put(&mut o, "type", JsonValue::Str(String::from_str("subSup")), Ghost(keys), Ghost(0), ks);
            ks = put(&mut o, "attrs", write_sub_sup_attrs(attrs), Ghost(keys), Ghost(1), ks);
        },
        Mark::TextColor { attrs } => {
            let ghost keys = seq!["type", "attrs"];
            ks = put(&mut o, "type", JsonValue::Str(String::from_str("textColor")), Ghost(keys), Ghost(0), ks);
            ks = put(&mut o, "attrs", write_color_attrs(attrs), Ghost(keys), Ghost(1), ks);
        },
        Mark::Underline => {
            let ghost keys = seq!["type"];
            ks = put(&mut o, "type", JsonValue::Str(String::from_str("underline")), Ghost(keys), Ghost(0), ks);
        },
    }
    assert(ks@ =~= mark_keys(*m));
    JsonValue::Object(o)
}

/// `v` is how the marks `ms` are written: no member for no marks.
pub open spec fn marks_enc(v: Option<JsonValue>, ms: Option<Vec<Mark>>) -> bool {
    match ms {
        None => v is None,
        Some(ms) => {
            &&& v matches Some(JsonValue::Array(a))
            &&& a@.len() == ms@.len()
            &&& forall|i: int| 0 <= i < a@.len() ==> mark_enc(#[trigger] ms@[i], a@[i])
        },
    }
}

fn write_marks(ms: &Vec<Mark>) -> (r: JsonValue)
    ensures
        marks_enc(Some(r), Some(*ms)),
{
    let mut a: Vec<JsonValue> = Vec::new();
    let mut k: usize = 0;
    while k < ms.len()
        invariant
            k <= ms@.len(),
            a@.len() == k,
            forall|x: int| 0 <= x < k ==> mark_enc(#[trigger] ms@[x], a@[x]),
        decreases ms@.len() - k,
    {
        a.push(write_mark(&ms[k]));
        k = k + 1;
    }
    JsonValue::Array(a)
}

/// `v` is an array that writes the nodes `c`, in order.
pub open spec fn nodes_enc(v: Option<JsonValue>, c: Vec<Node>) -> bool
    decreases c,
{
    &&& v matches Some(JsonValue::Array(a))
    &&& a@.len() == c@.len()
    &&& forall|i: int| 0 <= i < a@.len() ==> encodes(#[trigger] c@[i], a@[i])
}

/// The discriminator of a node variant.
pub open spec fn node_tag(n: Node) -> &'static str {
    match n {
        Node::Blockquote { .. } => "blockquote",
        Node::BulletList { .. } => "bulletList",
        Node::CodeBlock { .. } => "codeBlock",
        Node::Date { .. } => "date",
        Node::Doc { .. } => "doc",
        Node::Emoji { .. } => "emoji",
        Node::Expand { .. } => "expand",
        Node::HardBreak { .. } => "hardBreak",
        Node::Heading { .. } => "heading",
        Node::InlineCard { .. } => "inlineCard",
        Node::ListItem { .. } => "listItem",
        Node::Media { .. } => "media",
        Node::MediaGroup { .. } => "mediaGroup",
        Node::MediaSingle { .. } => "mediaSingle",
        Node::Mention { .. } => "mention",
        Node::NestedExpand { .. } => "nestedExpand",
        Node::OrderedList { .. } => "orderedList",
        Node::Panel { .. } => "panel",
        Node::Paragraph { .. } => "paragraph",
        Node::Rule => "rule",
        Node::Status { .. } => "status",
        Node::Table { .. } => "table",
        Node::TableCell { .. } => "tableCell",
        Node::TableHeader { .. } => "tableHeader",
        Node::TableRow { .. } => "tableRow",
        Node::Text { .. } => "text",
    }
}

/// The keys of a written node, in order: `type`, then each field that the
/// node holds.
pub open spec fn written_keys(n: Node) -> Seq<&'static str> {
    match n {
        Node::Blockquote { .. } => seq!["type", "content"],
        Node::BulletList { .. } => seq!["type", "content"],
        Node::CodeBlock { content, attrs, .. } => seq!["type"] + opt_key(content is Some, "content") + opt_key(attrs is Some, "attrs"),
        Node::Date { .. } => seq!["type", "attrs"],
        Node::Doc { .. } => seq!["type", "version", "content"],
        Node::Emoji { .. } => seq!["type", "attrs"],
        Node::Expand { marks, .. } => seq!["type", "content", "attrs"] + opt_key(marks is Some, "marks"),
        Node::HardBreak { attrs, .. } => seq!["type"] + opt_key(attrs is Some, "attrs"),
        Node::Heading { .. } => seq!["type", "content", "attrs"],
        Node::InlineCard { .. } => seq!["type", "attrs"],
        Node::ListItem { .. } => seq!["type", "content"],
        Node::Media { .. } => seq!["type", "attrs"],
        Node::MediaGroup { .. } => seq!["type", "content"],
        Node::MediaSingle { .. } => seq!["type", "content", "attrs"],
        Node::Mention { .. } => seq!["type", "attrs"],
        Node::NestedExpand { .. } => seq!["type", "content", "attrs"],
        Node::OrderedList { attrs, .. } => seq!["type", "content"] + opt_key(attrs is Some, "attrs"),
        Node::Panel { .. } => seq!["type", "content", "attrs"],
        Node::Paragraph { attrs, .. } => seq!["type", "content"] + opt_key(attrs is Some, "attrs"),
        Node::Rule => seq!["type"],
        Node::Status { .. } => seq!["type", "attrs"],
        Node::Table { attrs, .. } => seq!["type", "content"] + opt_key(attrs is Some, "attrs"),
        Node::TableCell { attrs, .. } => seq!["type", "content"] + opt_key(attrs is Some, "attrs"),
        Node::TableHeader { attrs, .. } => seq!["type", "content"] + opt_key(attrs is Some, "attrs"),
        Node::TableRow { .. } => seq!["type", "content"],
        Node::Text { marks, .. } => seq!["type", "text"] + opt_key(marks is Some, "marks"),
    }
}

/// `j` is how the node `n` is written: its discriminator, each field that
/// `n` holds under its key, and no key for a field that `n` leaves out.
pub open spec fn encodes(n: Node, j: JsonValue) -> bool
    decreases n,
{
    &&& j matches JsonValue::Object(o)
    &&& keys_are(o@, written_keys(n))
    &&& keys_within(o@, node_keys(n))
    &&& member(o@, "type"@) matches Some(JsonValue::Str(t))
    &&& t@ == node_tag(n)@
    &&& match n {
        Node::Blockquote { content } => nodes_enc(member(o@, "content"@), content),
        Node::BulletList { content } => nodes_enc(member(o@, "content"@), content),
        Node::CodeBlock { content, attrs } => {
            (match content {
                None => member(o@, "content"@) is None,
                Some(c) => nodes_enc(member(o@, "content"@), c),
            })
            && (match attrs {
                None => member(o@, "attrs"@) is None,
                Some(x) => member(o@, "attrs"@) matches Some(a) && code_block_attrs_enc(a, x),
            })
        },
        Node::Date { attrs } => (member(o@, "attrs"@) matches Some(a) && date_attrs_enc(a, attrs)),
        Node::Doc { version, content } => {
            member(o@, "version"@) == Some(JsonValue::Number(JsonNumber::Int(version as i64)))
            && nodes_enc(member(o@, "content"@), content)
        },
        Node::Emoji { attrs } => {
            (member(o@, "attrs"@) matches Some(a) && emoji_attrs_enc(a, attrs))
        },
        Node::Expand { content, attrs, marks } => {
            nodes_enc(member(o@, "content"@), content)
            && (member(o@, "attrs"@) matches Some(a) && expand_attrs_enc(a, attrs))
            && marks_enc(member(o@, "marks"@), marks)
        },
        Node::HardBreak { attrs } => {
            (match attrs {
                None => member(o@, "attrs"@) is None,
                Some(x) => member(o@, "attrs"@) matches Some(a) && hard_break_attrs_enc(a, x),
            })
        },
        Node::Heading { content, attrs } => {
            nodes_enc(member(o@, "content"@), content)
            && (member(o@, "attrs"@) matches Some(a) && heading_attrs_enc(a, attrs))
        },
        Node::InlineCard { attrs } => {
            (member(o@, "attrs"@) matches Some(a) && inline_card_attrs_enc(a, attrs))
        },
        Node::ListItem { content } => nodes_enc(member(o@, "content"@), content),
        Node::Media { attrs } => {
            (member(o@, "attrs"@) matches Some(a) && media_attrs_enc(a, attrs))
        },
        Node::MediaGroup { content } => nodes_enc(member(o@, "content"@), content),
        Node::MediaSingle { content, attrs } => {
            nodes_enc(member(o@, "content"@), content)
            && (member(o@, "attrs"@) matches Some(a) && media_single_attrs_enc(a, attrs))
        },
        Node::Mention { attrs } => {
            (member(o@, "attrs"@) matches Some(a) && mention_attrs_enc(a, attrs))
        },
        Node::NestedExpand { content, attrs } => {
            nodes_enc(member(o@, "content"@), content)
            && (member(o@, "attrs"@) matches Some(a) && expand_attrs_enc(a, attrs))
        },
        Node::OrderedList { content, attrs } => {
            nodes_enc(member(o@, "content"@), content)
            && (match attrs {
                None => member(o@, "attrs"@) is None,
                Some(x) => member(o@, "attrs"@) matches Some(a) && ordered_list_attrs_enc(a, x),
            })
        },
        Node::Panel { content, attrs } => {
            nodes_enc(member(o@, "content"@), content)
            && (member(o@, "attrs"@) matches Some(a) && panel_attrs_enc(a, attrs))
        },
        Node::Paragraph { content, attrs } => {
            nodes_enc(member(o@, "content"@), content)
            && (match attrs {
                None => member(o@, "attrs"@) is None,
                Some(x) => member(o@, "attrs"@) matches Some(a) && paragraph_attrs_enc(a, x),
            })
        },
        Node::Rule => true,
        Node::Status { attrs } => {
            (member(o@, "attrs"@) matches Some(a) && status_attrs_enc(a, attrs))
        },
        Node::Table { content, attrs } => {
            nodes_enc(member(o@, "content"@), content)
            && (match attrs {
                None => member(o@, "attrs"@) is None,
                Some(x) => member(o@, "attrs"@) matches Some(a) && table_attrs_enc(a, x),
            })
        },
        Node::TableCell { content, attrs } => {
            nodes_enc(member(o@, "content"@), content)
            && (match attrs {
                None => member(o@, "attrs"@) is None,
                Some(x) => member(o@, "attrs"@) matches Some(a) && table_cell_attrs_enc(a, x),
            })
        },
        Node::TableHeader { content, attrs } => {
            nodes_enc(member(o@, "content"@), content)
            && (match attrs {
                None => member(o@, "attrs"@) is None,
                Some(x) => member(o@, "attrs"@) matches Some(a) && table_cell_attrs_enc(a, x),
            })
        },
        Node::TableRow { content } => nodes_enc(member(o@, "content"@), content),
        Node::Text { text, marks } => {
            member(o@, "text"@) == Some(JsonValue::Str(text))
            && marks_enc(member(o@, "marks"@), marks)
        },
    }
}

/// Writes the nodes `c` as an array, in order.
pub fn encode_nodes(c: &Vec<Node>) -> (r: JsonValue)
    ensures
        nodes_enc(Some(r), *c),
    decreases c,
{
    let mut a: Vec<JsonValue> = Vec::new();
    let mut k: usize = 0;
    while k < c.len()
        invariant
            k <= c@.len(),
            a@.len() == k,
            forall|x: int| 0 <= x < k ==> encodes(#[trigger] c@[x], a@[x]),
        decreases c@.len() - k,
    {
        a.push(encode_node(&c[k]));
        k = k + 1;
    }
    JsonValue::Array(a)
}

/// Writes a node, and with it the whole subtree below, as a JSON value.
pub fn encode_node(n: &Node) -> (r: JsonValue)
    ensures
        encodes(*n, r),
    decreases n,
{
    proof {
        lemma_names();
    }
    let mut o: Vec<(String, JsonValue)> = Vec::new();
    let mut ks: Ghost<Seq<&str>> = Ghost(Seq::empty());
    match n {
        Node::Blockquote { content } => {
            ks = put(&mut o, "type", JsonValue::Str(String::from_str("blockquote")), Ghost(node_keys(*n)), Ghost(0), ks);
            ks = put(&mut o, "content", encode_nodes(content), Ghost(node_keys(*n)), Ghost(1), ks);
        },
        Node::BulletList { content } => {
            ks = put(&mut o, "type", JsonValue::Str(String::from_str("bulletList")), Ghost(node_keys(*n)), Ghost(0), ks);
            ks = put(&mut o, "content", encode_nodes(content), Ghost(node_keys(*n)), Ghost(1), ks);
        },
        Node::CodeBlock { content, attrs } => {
            ks = put(&mut o, "type", JsonValue::Str(String::from_str("codeBlock")), Ghost(node_keys(*n)), Ghost(0), ks);
            if let Some(c) = content {
                ks = put(&mut o, "content", encode_nodes(c), Ghost(node_keys(*n)), Ghost(1), ks);
            }
            if let Some(x) = attrs {
                ks = put(&mut o, "attrs", write_code_block_attrs(x), Ghost(node_keys(*n)), Ghost(2), ks);
            }
        },
        Node::Date { attrs } => {
            ks = put(&mut o, "type", JsonValue::Str(String::from_str("date")), Ghost(node_keys(*n)), Ghost(0), ks);
            ks = put(&mut o, "attrs", write_date_attrs(attrs), Ghost(node_keys(*n)), Ghost(1), ks);
        },
        Node::Doc { version, content } => {
            ks = put(&mut o, "type", JsonValue::Str(String::from_str("doc")), Ghost(node_keys(*n)), Ghost(0), ks);
            ks = put(&mut o, "version", JsonValue::Number(JsonNumber::Int(*version as i64)), Ghost(node_keys(*n)), Ghost(1), ks);
            ks = put(&mut o, "content", encode_nodes(content), Ghost(node_keys(*n)), Ghost(2), ks);
        },
        Node::Emoji { attrs } => {
            ks = put(&mut o, "type", JsonValue::Str(String::from_str("emoji")), Ghost(node_keys(*n)), Ghost(0), ks);
            ks = put(&mut o, "attrs", write_emoji_attrs(attrs), Ghost(node_keys(*n)), Ghost(1), ks);
        },
        Node::Expand { content, attrs, marks } => {
            ks = put(&mut o, "type", JsonValue::Str(String::from_str("expand")), Ghost(node_keys(*n)), Ghost(0), ks);
            ks = put(&mut o, "content", encode_nodes(content), Ghost(node_keys(*n)), Ghost(1), ks);
            ks = put(&mut o, "attrs", write_expand_attrs(attrs), Ghost(node_keys(*n)), Ghost(2), ks);
            if let Some(ms) = marks {
                ks = put(&mut o, "marks", write_marks(ms), Ghost(node_keys(*n)), Ghost(3), ks);
            }
        },
        Node::HardBreak { attrs } => {
            ks = put(&mut o, "type", JsonValue::Str(String::from_str("hardBreak")), Ghost(node_keys(*n)), Ghost(0), ks);
            if let Some(x) = attrs {
                ks = put(&mut o, "attrs", write_hard_break_attrs(x), Ghost(node_keys(*n)), Ghost(1), ks);
            }
        },
        Node::Heading { content, attrs } => {
            ks = put(&mut o, "type", JsonValue::Str(String::from_str("heading")), Ghost(node_keys(*n)), Ghost(0), ks);
            ks = put(&mut o, "content", encode_nodes(content), Ghost(node_keys(*n)), Ghost(1), ks);
            ks = put(&mut o, "attrs", write_heading_attrs(attrs), Ghost(node_keys(*n)), Ghost(2), ks);
        },
        Node::InlineCard { attrs } => {
            ks = put(&mut o, "type", JsonValue::Str(String::from_str("inlineCard")), Ghost(node_keys(*n)), Ghost(0), ks);
            ks = put(&mut o, "attrs", write_inline_card_attrs(attrs), Ghost(node_keys(*n)), Ghost(1), ks);
        },
        Node::ListItem { content } => {
            ks = put(&mut o, "type", JsonValue::Str(String::from_str("listItem")), Ghost(node_keys(*n)), Ghost(0), ks);
            ks = put(&mut o, "content", encode_nodes(content), Ghost(node_keys(*n)), Ghost(1), ks);
        },
        Node::Media { attrs } => {
            ks = put(&mut o, "type", JsonValue::Str(String::from_str("media")), Ghost(node_keys(*n)), Ghost(0), ks);
            ks = put(&mut o, "attrs", write_media_attrs(attrs), Ghost(node_keys(*n)), Ghost(1), ks);
        },
        Node::MediaGroup { content } => {
            ks = put(&mut o, "type", JsonValue::Str(String::from_str("mediaGroup")), Ghost(node_keys(*n)), Ghost(0), ks);
            ks = put(&mut o, "content", encode_nodes(content), Ghost(node_keys(*n)), Ghost(1), ks);
        },
        Node::MediaSingle { content, attrs } => {
            ks = put(&mut o, "type", JsonValue::Str(String::from_str("mediaSingle")), Ghost(node_keys(*n)), Ghost(0), ks);
            ks = put(&mut o, "content", encode_nodes(content), Ghost(node_keys(*n)), Ghost(1), ks);
            ks = put(&mut o, "attrs", write_media_single_attrs(attrs), Ghost(node_keys(*n)), Ghost(2), ks);
        },
        Node::Mention { attrs } => {
            ks = put(&mut o, "type", JsonValue::Str(String::from_str("mention")), Ghost(node_keys(*n)), Ghost(0), ks);
            ks = put(&mut o, "attrs", write_mention_attrs(attrs), Ghost(node_keys(*n)), Ghost(1), ks);
        },
        Node::NestedExpand { content, attrs } => {
            ks = put(&mut o, "type", JsonValue::Str(String::from_str("nestedExpand")), Ghost(node_keys(*n)), Ghost(0), ks);
            ks = put(&mut o, "content", encode_nodes(content), Ghost(node_keys(*n)), Ghost(1), ks);
            ks = put(&mut o, "attrs", write_expand_attrs(attrs), Ghost(node_keys(*n)), Ghost(2), ks);
        },
        Node::OrderedList { content, attrs } => {
            ks = put(&mut o, "type", JsonValue::Str(String::from_str("orderedList")), Ghost(node_keys(*n)), Ghost(0), ks);
            ks = put(&mut o, "content", encode_nodes(content), Ghost(node_keys(*n)), Ghost(1), ks);
            if let Some(x) = attrs {
                ks = put(&mut o, "attrs", write_ordered_list_attrs(x), Ghost(node_keys(*n)), Ghost(2), ks);
            }
        },
        Node::Panel { content, attrs } => {
            ks = put(&mut o, "type", JsonValue::Str(String::from_str("panel")), Ghost(node_keys(*n)), Ghost(0), ks);
            ks = put(&mut o, "content", encode_nodes(content), Ghost(node_keys(*n)), Ghost(1), ks);
            ks = put(&mut o, "attrs", write_panel_attrs(attrs), Ghost(node_keys(*n)), Ghost(2), ks);
        },
        Node::Paragraph { content, attrs } => {
            ks = put(&mut o, "type", JsonValue::Str(String::from_str("paragraph")), Ghost(node_keys(*n)), Ghost(0), ks);
            ks = put(&mut o, "content", encode_nodes(content), Ghost(node_keys(*n)), Ghost(1), ks);
            if let Some(x) = attrs {
                ks = put(&mut o, "attrs", write_paragraph_attrs(x), Ghost(node_keys(*n)), Ghost(2), ks);
            }
        },
        Node::Rule => {
            ks = put(&mut o, "type", JsonValue::Str(String::from_str("rule")), Ghost(node_keys(*n)), Ghost(0), ks);
        },
        Node::Status { attrs } => {
            ks = put(&mut o, "type", JsonValue::Str(String::from_str("status")), Ghost(node_keys(*n)), Ghost(0), ks);
            ks = put(&mut o, "attrs", write_status_attrs(attrs), Ghost(node_keys(*n)), Ghost(1), ks);
        },
        Node::Table { content, attrs } => {
            ks = put(&mut o, "type", JsonValue::Str(String::from_str("table")), Ghost(node_keys(*n)), Ghost(0), ks);
            ks = put(&mut o, "content", encode_nodes(content), Ghost(node_keys(*n)), Ghost(1), ks);
            if let Some(x) = attrs {
                ks = put(&mut o, "attrs", write_table_attrs(x), Ghost(node_keys(*n)), Ghost(2), ks);
            }
        },
        Node::TableCell { content, attrs } => {
            ks = put(&mut o, "type", JsonValue::Str(String::from_str("tableCell")), Ghost(node_keys(*n)), Ghost(0), ks);
            ks = put(&mut o, "content", encode_nodes(content), Ghost(node_keys(*n)), Ghost(1), ks);
            if let Some(x) = attrs {
                ks = put(&mut o, "attrs", write_table_cell_attrs(x), Ghost(node_keys(*n)), Ghost(2), ks);
            }
        },
        Node::TableHeader { content, attrs } => {
            ks = put(&mut o, "type", JsonValue::Str(String::from_str("tableHeader")), Ghost(node_keys(*n)), Ghost(0), ks);
            ks = put(&mut o, "content", encode_nodes(content), Ghost(node_keys(*n)), Ghost(1), ks);
            if let Some(x) = attrs {
                ks = put(&mut o, "attrs", write_table_cell_attrs(x), Ghost(node_keys(*n)), Ghost(2), ks);
            }
        },
        Node::TableRow { content } => {
            ks = put(&mut o, "type", JsonValue::Str(String::from_str("tableRow")), Ghost(node_keys(*n)), Ghost(0), ks);
            ks = put(&mut o, "content", encode_nodes(content), Ghost(node_keys(*n)), Ghost(1), ks);
        },
        Node::Text { text, marks } => {
            ks = put(&mut o, "type", JsonValue::Str(String::from_str("text")), Ghost(node_keys(*n)), Ghost(0), ks);
            ks = put(&mut o, "text", JsonValue::Str(text.clone()), Ghost(node_keys(*n)), Ghost(1), ks);
            if let Some(ms) = marks {
                ks = put(&mut o, "marks", write_marks(ms), Ghost(node_keys(*n)), Ghost(2), ks);
            }
        },
    }
    assert(ks@ =~= written_keys(*n));
    JsonValue::Object(o)
}

} // verus!
