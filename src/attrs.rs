//! The attribute records: what each reads from, and their readers.
use vstd::prelude::*;

use crate::error::{error_at, DecodeError, DecodeErrorKind};
use crate::fields::{
    check_keys, int_field, mismatch, missing, object_members, opt_bool_field, opt_number_field, opt_str_field, opt_u16_field,
    opt_u16s_field, opt_u32_field, str_field, int_of, opt_bool_of, opt_number_of, opt_str_of, opt_u16_of,
    opt_u16s_of, opt_u32_of, str_of,
};
use crate::json::{find_member, keys_within, member, same_text, JsonValue};
use crate::model::{
    ColorAttrs, CodeBlockAttrs, DateAttrs, EmojiAttrs, ExpandAttrs, HardBreakAttrs, HeadingAttrs,
    InlineCardAttrs, LinkAttrs, MediaAttrs, MediaSingleAttrs, MentionAttrs, OrderedListAttrs, PanelAttrs,
    ParagraphAttrs, StatusAttrs, TableAttrs, TableCellAttrs, SubSupAttrs,
};

verus! {

/// The attributes object `v` reads as `a`.
pub open spec fn color_attrs_of(v: JsonValue, a: ColorAttrs) -> bool {
    &&& v matches JsonValue::Object(o)
    &&& keys_within(o@, seq!["color"])
    &&& str_of(member(o@, "color"@), a.color)
}

pub fn read_color_attrs(v: &JsonValue, variant: &'static str) -> (r: Result<ColorAttrs, DecodeError>)
    ensures
        !(*v is Object) ==> (r matches Err(e) && e.kind == (DecodeErrorKind::TypeMismatch {
            variant,
            field: "attrs",
            expected: "object",
        })),
        r matches Err(e) ==> !(e.kind is MalformedInput),
        match r {
            Ok(a) => color_attrs_of(*v, a),
            Err(_) => forall|a: ColorAttrs| !color_attrs_of(*v, a),
        },
{
    let o = match object_members(v, variant) {
        Ok(x) => x,
        Err(e) => return Err(e),
    };
    let keys = vec!["color"];
    assert(keys@ == seq!["color"]);
    if let Err(e) = check_keys(o, variant, keys) {
        return Err(e);
    }
    let color = match str_field(o, variant, "color") {
        Ok(x) => x,
        Err(e) => return Err(e),
    };
    Ok(ColorAttrs { color })
}

/// The attributes object `v` reads as `a`.
pub open spec fn code_block_attrs_of(v: JsonValue, a: CodeBlockAttrs) -> bool {
    &&& v matches JsonValue::Object(o)
    &&& keys_within(o@, seq!["language"])
    &&& str_of(member(o@, "language"@), a.language)
}

pub fn read_code_block_attrs(v: &JsonValue, variant: &'static str) -> (r: Result<CodeBlockAttrs, DecodeError>)
    ensures
        !(*v is Object) ==> (r matches Err(e) && e.kind == (DecodeErrorKind::TypeMismatch {
            variant,
            field: "attrs",
            expected: "object",
        })),
        r matches Err(e) ==> !(e.kind is MalformedInput),
        match r {
            Ok(a) => code_block_attrs_of(*v, a),
            Err(_) => forall|a: CodeBlockAttrs| !code_block_attrs_of(*v, a),
        },
{
    let o = match object_members(v, variant) {
        Ok(x) => x,
        Err(e) => return Err(e),
    };
    let keys = vec!["language"];
    assert(keys@ == seq!["language"]);
    if let Err(e) = check_keys(o, variant, keys) {
        return Err(e);
    }
    let language = match str_field(o, variant, "language") {
        Ok(x) => x,
        Err(e) => return Err(e),
    };
    Ok(CodeBlockAttrs { language })
}

/// The attributes object `v` reads as `a`.
pub open spec fn date_attrs_of(v: JsonValue, a: DateAttrs) -> bool {
    &&& v matches JsonValue::Object(o)
    &&& keys_within(o@, seq!["timestamp"])
    &&& str_of(member(o@, "timestamp"@), a.timestamp)
}

pub fn read_date_attrs(v: &JsonValue, variant: &'static str) -> (r: Result<DateAttrs, DecodeError>)
    ensures
        !(*v is Object) ==> (r matches Err(e) && e.kind == (DecodeErrorKind::TypeMismatch {
            variant,
            field: "attrs",
            expected: "object",
        })),
        r matches Err(e) ==> !(e.kind is MalformedInput),
        match r {
            Ok(a) => date_attrs_of(*v, a),
            Err(_) => forall|a: DateAttrs| !date_attrs_of(*v, a),
        },
{
    let o = match object_members(v, variant) {
        Ok(x) => x,
        Err(e) => return Err(e),
    };
    let keys = vec!["timestamp"];
    assert(keys@ == seq!["timestamp"]);
    if let Err(e) = check_keys(o, variant, keys) {
        return Err(e);
    }
    let timestamp = match str_field(o, variant, "timestamp") {
        Ok(x) => x,
        Err(e) => return Err(e),
    };
    Ok(DateAttrs { timestamp })
}

/// The attributes object `v` reads as `a`.
pub open spec fn emoji_attrs_of(v: JsonValue, a: EmojiAttrs) -> bool {
    &&& v matches JsonValue::Object(o)
    &&& keys_within(o@, seq!["shortName", "id", "text"])
    &&& str_of(member(o@, "shortName"@), a.short_name)
        &&& opt_str_of(member(o@, "id"@), a.id)
        &&& opt_str_of(member(o@, "text"@), a.text)
}

pub fn read_emoji_attrs(v: &JsonValue, variant: &'static str) -> (r: Result<EmojiAttrs, DecodeError>)
    ensures
        !(*v is Object) ==> (r matches Err(e) && e.kind == (DecodeErrorKind::TypeMismatch {
            variant,
            field: "attrs",
            expected: "object",
        })),
        r matches Err(e) ==> !(e.kind is MalformedInput),
        match r {
            Ok(a) => emoji_attrs_of(*v, a),
            Err(_) => forall|a: EmojiAttrs| !emoji_attrs_of(*v, a),
        },
{
    let o = match object_members(v, variant) {
        Ok(x) => x,
        Err(e) => return Err(e),
    };
    let keys = vec!["shortName", "id", "text"];
    assert(keys@ == seq!["shortName", "id", "text"]);
    if let Err(e) = check_keys(o, variant, keys) {
        return Err(e);
    }
    let short_name = match str_field(o, variant, "shortName") {
        Ok(x) => x,
        Err(e) => return Err(e),
    };
    let id = match opt_str_field(o, variant, "id") {
        Ok(x) => x,
        Err(e) => return Err(e),
    };
    let text = match opt_str_field(o, variant, "text") {
        Ok(x) => x,
        Err(e) => return Err(e),
    };
    Ok(EmojiAttrs { short_name, id, text })
}

/// The attributes object `v` reads as `a`.
pub open spec fn expand_attrs_of(v: JsonValue, a: ExpandAttrs) -> bool {
    &&& v matches JsonValue::Object(o)
    &&& keys_within(o@, seq!["title"])
    &&& str_of(member(o@, "title"@), a.title)
}

pub fn read_expand_attrs(v: &JsonValue, variant: &'static str) -> (r: Result<ExpandAttrs, DecodeError>)
    ensures
        !(*v is Object) ==> (r matches Err(e) && e.kind == (DecodeErrorKind::TypeMismatch {
            variant,
            field: "attrs",
            expected: "object",
        })),
        r matches Err(e) ==> !(e.kind is MalformedInput),
        match r {
            Ok(a) => expand_attrs_of(*v, a),
            Err(_) => forall|a: ExpandAttrs| !expand_attrs_of(*v, a),
        },
{
    let o = match object_members(v, variant) {
        Ok(x) => x,
        Err(e) => return Err(e),
    };
    let keys = vec!["title"];
    assert(keys@ == seq!["title"]);
    if let Err(e) = check_keys(o, variant, keys) {
        return Err(e);
    }
    let title = match str_field(o, variant, "title") {
        Ok(x) => x,
        Err(e) => return Err(e),
    };
    Ok(ExpandAttrs { title })
}

/// The attributes object `v` reads as `a`.
pub open spec fn hard_break_attrs_of(v: JsonValue, a: HardBreakAttrs) -> bool {
    &&& v matches JsonValue::Object(o)
    &&& keys_within(o@, seq!["text"])
    &&& str_of(member(o@, "text"@), a.text)
}

pub fn read_hard_break_attrs(v: &JsonValue, variant: &'static str) -> (r: Result<HardBreakAttrs, DecodeError>)
    ensures
        !(*v is Object) ==> (r matches Err(e) && e.kind == (DecodeErrorKind::TypeMismatch {
            variant,
            field: "attrs",
            expected: "object",
        })),
        r matches Err(e) ==> !(e.kind is MalformedInput),
        match r {
            Ok(a) => hard_break_attrs_of(*v, a),
            Err(_) => forall|a: HardBreakAttrs| !hard_break_attrs_of(*v, a),
        },
{
    let o = match object_members(v, variant) {
        Ok(x) => x,
        Err(e) => return Err(e),
    };
    let keys = vec!["text"];
    assert(keys@ == seq!["text"]);
    if let Err(e) = check_keys(o, variant, keys) {
        return Err(e);
    }
    let text = match str_field(o, variant, "text") {
        Ok(x) => x,
        Err(e) => return Err(e),
    };
    Ok(HardBreakAttrs { text })
}

/// The attributes object `v` reads as `a`.
pub open spec fn heading_attrs_of(v: JsonValue, a: HeadingAttrs) -> bool {
    &&& v matches JsonValue::Object(o)
    &&& keys_within(o@, seq!["level", "localId"])
    &&& int_of(member(o@, "level"@), a.level as int)
        &&& opt_str_of(member(o@, "localId"@), a.local_id)
}

pub fn read_heading_attrs(v: &JsonValue, variant: &'static str) -> (r: Result<HeadingAttrs, DecodeError>)
    ensures
        !(*v is Object) ==> (r matches Err(e) && e.kind == (DecodeErrorKind::TypeMismatch {
            variant,
            field: "attrs",
            expected: "object",
        })),
        r matches Err(e) ==> !(e.kind is MalformedInput),
        match r {
            Ok(a) => heading_attrs_of(*v, a),
            Err(_) => forall|a: HeadingAttrs| !heading_attrs_of(*v, a),
        },
{
    let o = match object_members(v, variant) {
        Ok(x) => x,
        Err(e) => return Err(e),
    };
    let keys = vec!["level", "localId"];
    assert(keys@ == seq!["level", "localId"]);
    if let Err(e) = check_keys(o, variant, keys) {
        return Err(e);
    }
    let level = match int_field(o, variant, "level", -128, 127) {
        Ok(x) => x as i8,
        Err(e) => return Err(e),
    };
    let local_id = match opt_str_field(o, variant, "localId") {
        Ok(x) => x,
        Err(e) => return Err(e),
    };
    Ok(HeadingAttrs { level, local_id })
}

/// The attributes object `v` reads as `a`.
pub open spec fn inline_card_attrs_of(v: JsonValue, a: InlineCardAttrs) -> bool {
    &&& v matches JsonValue::Object(o)
    &&& keys_within(o@, seq!["data", "url"])
    &&& opt_str_of(member(o@, "data"@), a.data)
        &&& opt_str_of(member(o@, "url"@), a.url)
}

pub fn read_inline_card_attrs(v: &JsonValue, variant: &'static str) -> (r: Result<InlineCardAttrs, DecodeError>)
    ensures
        !(*v is Object) ==> (r matches Err(e) && e.kind == (DecodeErrorKind::TypeMismatch {
            variant,
            field: "attrs",
            expected: "object",
        })),
        r matches Err(e) ==> !(e.kind is MalformedInput),
        match r {
            Ok(a) => inline_card_attrs_of(*v, a),
            Err(_) => forall|a: InlineCardAttrs| !inline_card_attrs_of(*v, a),
        },
{
    let o = match object_members(v, variant) {
        Ok(x) => x,
        Err(e) => return Err(e),
    };
    let keys = vec!["data", "url"];
    assert(keys@ == seq!["data", "url"]);
    if let Err(e) = check_keys(o, variant, keys) {
        return Err(e);
    }
    let data = match opt_str_field(o, variant, "data") {
        Ok(x) => x,
        Err(e) => return Err(e),
    };
    let url = match opt_str_field(o, variant, "url") {
        Ok(x) => x,
        Err(e) => return Err(e),
    };
    Ok(InlineCardAttrs { data, url })
}

/// The attributes object `v` reads as `a`.
pub open spec fn link_attrs_of(v: JsonValue, a: LinkAttrs) -> bool {
    &&& v matches JsonValue::Object(o)
    &&& keys_within(o@, seq!["collection", "href", "id", "occurrenceKey", "title"])
    &&& opt_str_of(member(o@, "collection"@), a.collection)
        &&& str_of(member(o@, "href"@), a.href)
        &&& opt_str_of(member(o@, "id"@), a.id)
        &&& opt_str_of(member(o@, "occurrenceKey"@), a.occurrence_key)
        &&& opt_str_of(member(o@, "title"@), a.title)
}

pub fn read_link_attrs(v: &JsonValue, variant: &'static str) -> (r: Result<LinkAttrs, DecodeError>)
    ensures
        !(*v is Object) ==> (r matches Err(e) && e.kind == (DecodeErrorKind::TypeMismatch {
            variant,
            field: "attrs",
            expected: "object",
        })),
        r matches Err(e) ==> !(e.kind is MalformedInput),
        match r {
            Ok(a) => link_attrs_of(*v, a),
            Err(_) => forall|a: LinkAttrs| !link_attrs_of(*v, a),
        },
{
    let o = match object_members(v, variant) {
        Ok(x) => x,
        Err(e) => return Err(e),
    };
    let keys = vec!["collection", "href", "id", "occurrenceKey", "title"];
    assert(keys@ == seq!["collection", "href", "id", "occurrenceKey", "title"]);
    if let Err(e) = check_keys(o, variant, keys) {
        return Err(e);
    }
    let collection = match opt_str_field(o, variant, "collection") {
        Ok(x) => x,
        Err(e) => return Err(e),
    };
    let href = match str_field(o, variant, "href") {
        Ok(x) => x,
        Err(e) => return Err(e),
    };
    let id = match opt_str_field(o, variant, "id") {
        Ok(x) => x,
        Err(e) => return Err(e),
    };
    let occurrence_key = match opt_str_field(o, variant, "occurrenceKey") {
        Ok(x) => x,
        Err(e) => return Err(e),
    };
    let title = match opt_str_field(o, variant, "title") {
        Ok(x) => x,
        Err(e) => return Err(e),
    };
    Ok(LinkAttrs { collection, href, id, occurrence_key, title })
}

/// The attributes object `v` reads as `a`.
pub open spec fn media_attrs_of(v: JsonValue, a: MediaAttrs) -> bool {
    &&& v matches JsonValue::Object(o)
    &&& keys_within(o@, seq!["type", "width", "height", "id", "collection", "occurrenceKey"])
    &&& str_of(member(o@, "type"@), a.type_)
        &&& opt_u32_of(member(o@, "width"@), a.width)
        &&& opt_u32_of(member(o@, "height"@), a.height)
        &&& str_of(member(o@, "id"@), a.id)
        &&& str_of(member(o@, "collection"@), a.collection)
        &&& opt_str_of(member(o@, "occurrenceKey"@), a.occurrence_key)
}

pub fn read_media_attrs(v: &JsonValue, variant: &'static str) -> (r: Result<MediaAttrs, DecodeError>)
    ensures
        !(*v is Object) ==> (r matches Err(e) && e.kind == (DecodeErrorKind::TypeMismatch {
            variant,
            field: "attrs",
            expected: "object",
        })),
        r matches Err(e) ==> !(e.kind is MalformedInput),
        match r {
            Ok(a) => media_attrs_of(*v, a),
            Err(_) => forall|a: MediaAttrs| !media_attrs_of(*v, a),
        },
{
    let o = match object_members(v, variant) {
        Ok(x) => x,
        Err(e) => return Err(e),
    };
    let keys = vec!["type", "width", "height", "id", "collection", "occurrenceKey"];
    assert(keys@ == seq!["type", "width", "height", "id", "collection", "occurrenceKey"]);
    if let Err(e) = check_keys(o, variant, keys) {
        return Err(e);
    }
    let type_ = match str_field(o, variant, "type") {
        Ok(x) => x,
        Err(e) => return Err(e),
    };
    let width = match opt_u32_field(o, variant, "width") {
        Ok(x) => x,
        Err(e) => return Err(e),
    };
    let height = match opt_u32_field(o, variant, "height") {
        Ok(x) => x,
        Err(e) => return Err(e),
    };
    let id = match str_field(o, variant, "id") {
        Ok(x) => x,
        Err(e) => return Err(e),
    };
    let collection = match str_field(o, variant, "collection") {
        Ok(x) => x,
        Err(e) => return Err(e),
    };
    let occurrence_key = match opt_str_field(o, variant, "occurrenceKey") {
        Ok(x) => x,
        Err(e) => return Err(e),
    };
    Ok(MediaAttrs { type_, width, height, id, collection, occurrence_key })
}

/// The attributes object `v` reads as `a`.
pub open spec fn media_single_attrs_of(v: JsonValue, a: MediaSingleAttrs) -> bool {
    &&& v matches JsonValue::Object(o)
    &&& keys_within(o@, seq!["layout", "width", "widthType"])
    &&& str_of(member(o@, "layout"@), a.layout)
        &&& opt_number_of(member(o@, "width"@), a.width)
        &&& opt_str_of(member(o@, "widthType"@), a.width_type)
}

pub fn read_media_single_attrs(v: &JsonValue, variant: &'static str) -> (r: Result<MediaSingleAttrs, DecodeError>)
    ensures
        !(*v is Object) ==> (r matches Err(e) && e.kind == (DecodeErrorKind::TypeMismatch {
            variant,
            field: "attrs",
            expected: "object",
        })),
        r matches Err(e) ==> !(e.kind is MalformedInput),
        match r {
            Ok(a) => media_single_attrs_of(*v, a),
            Err(_) => forall|a: MediaSingleAttrs| !media_single_attrs_of(*v, a),
        },
{
    let o = match object_members(v, variant) {
        Ok(x) => x,
        Err(e) => return Err(e),
    };
    let keys = vec!["layout", "width", "widthType"];
    assert(keys@ == seq!["layout", "width", "widthType"]);
    if let Err(e) = check_keys(o, variant, keys) {
        return Err(e);
    }
    let layout = match str_field(o, variant, "layout") {
        Ok(x) => x,
        Err(e) => return Err(e),
    };
    let width = match opt_number_field(o, variant, "width") {
        Ok(x) => x,
        Err(e) => return Err(e),
    };
    let width_type = match opt_str_field(o, variant, "widthType") {
        Ok(x) => x,
        Err(e) => return Err(e),
    };
    Ok(MediaSingleAttrs { layout, width, width_type })
}

/// The attributes object `v` reads as `a`.
pub open spec fn mention_attrs_of(v: JsonValue, a: MentionAttrs) -> bool {
    &&& v matches JsonValue::Object(o)
    &&& keys_within(o@, seq!["id", "text", "userType"])
    &&& str_of(member(o@, "id"@), a.id)
        &&& opt_str_of(member(o@, "text"@), a.text)
        &&& opt_str_of(member(o@, "userType"@), a.user_type)
}

pub fn read_mention_attrs(v: &JsonValue, variant: &'static str) -> (r: Result<MentionAttrs, DecodeError>)
    ensures
        !(*v is Object) ==> (r matches Err(e) && e.kind == (DecodeErrorKind::TypeMismatch {
            variant,
            field: "attrs",
            expected: "object",
        })),
        r matches Err(e) ==> !(e.kind is MalformedInput),
        match r {
            Ok(a) => mention_attrs_of(*v, a),
            Err(_) => forall|a: MentionAttrs| !mention_attrs_of(*v, a),
        },
{
    let o = match object_members(v, variant) {
        Ok(x) => x,
        Err(e) => return Err(e),
    };
    let keys = vec!["id", "text", "userType"];
    assert(keys@ == seq!["id", "text", "userType"]);
    if let Err(e) = check_keys(o, variant, keys) {
        return Err(e);
    }
    let id = match str_field(o, variant, "id") {
        Ok(x) => x,
        Err(e) => return Err(e),
    };
    let text = match opt_str_field(o, variant, "text") {
        Ok(x) => x,
        Err(e) => return Err(e),
    };
    let user_type = match opt_str_field(o, variant, "userType") {
        Ok(x) => x,
        Err(e) => return Err(e),
    };
    Ok(MentionAttrs { id, text, user_type })
}

/// The attributes object `v` reads as `a`.
pub open spec fn ordered_list_attrs_of(v: JsonValue, a: OrderedListAttrs) -> bool {
    &&& v matches JsonValue::Object(o)
    &&& keys_within(o@, seq!["order"])
    &&& int_of(member(o@, "order"@), a.order as int)
}

pub fn read_ordered_list_attrs(v: &JsonValue, variant: &'static str) -> (r: Result<OrderedListAttrs, DecodeError>)
    ensures
        !(*v is Object) ==> (r matches Err(e) && e.kind == (DecodeErrorKind::TypeMismatch {
            variant,
            field: "attrs",
            expected: "object",
        })),
        r matches Err(e) ==> !(e.kind is MalformedInput),
        match r {
            Ok(a) => ordered_list_attrs_of(*v, a),
            Err(_) => forall|a: OrderedListAttrs| !ordered_list_attrs_of(*v, a),
        },
{
    let o = match object_members(v, variant) {
        Ok(x) => x,
        Err(e) => return Err(e),
    };
    let keys = vec!["order"];
    assert(keys@ == seq!["order"]);
    if let Err(e) = check_keys(o, variant, keys) {
        return Err(e);
    }
    let order = match int_field(o, variant, "order", 0, 65535) {
        Ok(x) => x as u16,
        Err(e) => return Err(e),
    };
    Ok(OrderedListAttrs { order })
}

/// The attributes object `v` reads as `a`.
pub open spec fn panel_attrs_of(v: JsonValue, a: PanelAttrs) -> bool {
    &&& v matches JsonValue::Object(o)
    &&& keys_within(o@, seq!["panelType"])
    &&& str_of(member(o@, "panelType"@), a.panel_type)
}

pub fn read_panel_attrs(v: &JsonValue, variant: &'static str) -> (r: Result<PanelAttrs, DecodeError>)
    ensures
        !(*v is Object) ==> (r matches Err(e) && e.kind == (DecodeErrorKind::TypeMismatch {
            variant,
            field: "attrs",
            expected: "object",
        })),
        r matches Err(e) ==> !(e.kind is MalformedInput),
        match r {
            Ok(a) => panel_attrs_of(*v, a),
            Err(_) => forall|a: PanelAttrs| !panel_attrs_of(*v, a),
        },
{
    let o = match object_members(v, variant) {
        Ok(x) => x,
        Err(e) => return Err(e),
    };
    let keys = vec!["panelType"];
    assert(keys@ == seq!["panelType"]);
    if let Err(e) = check_keys(o, variant, keys) {
        return Err(e);
    }
    let panel_type = match str_field(o, variant, "panelType") {
        Ok(x) => x,
        Err(e) => return Err(e),
    };
    Ok(PanelAttrs { panel_type })
}

/// The attributes object `v` reads as `a`.
pub open spec fn paragraph_attrs_of(v: JsonValue, a: ParagraphAttrs) -> bool {
    &&& v matches JsonValue::Object(o)
    &&& keys_within(o@, seq!["localId"])
    &&& str_of(member(o@, "localId"@), a.local_id)
}

pub fn read_paragraph_attrs(v: &JsonValue, variant: &'static str) -> (r: Result<ParagraphAttrs, DecodeError>)
    ensures
        !(*v is Object) ==> (r matches Err(e) && e.kind == (DecodeErrorKind::TypeMismatch {
            variant,
            field: "attrs",
            expected: "object",
        })),
        r matches Err(e) ==> !(e.kind is MalformedInput),
        match r {
            Ok(a) => paragraph_attrs_of(*v, a),
            Err(_) => forall|a: ParagraphAttrs| !paragraph_attrs_of(*v, a),
        },
{
    let o = match object_members(v, variant) {
        Ok(x) => x,
        Err(e) => return Err(e),
    };
    let keys = vec!["localId"];
    assert(keys@ == seq!["localId"]);
    if let Err(e) = check_keys(o, variant, keys) {
        return Err(e);
    }
    let local_id = match str_field(o, variant, "localId") {
        Ok(x) => x,
        Err(e) => return Err(e),
    };
    Ok(ParagraphAttrs { local_id })
}

/// The attributes object `v` reads as `a`.
pub open spec fn status_attrs_of(v: JsonValue, a: StatusAttrs) -> bool {
    &&& v matches JsonValue::Object(o)
    &&& keys_within(o@, seq!["localId", "text", "color"])
    &&& opt_str_of(member(o@, "localId"@), a.local_id)
        &&& str_of(member(o@, "text"@), a.text)
        &&& str_of(member(o@, "color"@), a.color)
}

pub fn read_status_attrs(v: &JsonValue, variant: &'static str) -> (r: Result<StatusAttrs, DecodeError>)
    ensures
        !(*v is Object) ==> (r matches Err(e) && e.kind == (DecodeErrorKind::TypeMismatch {
            variant,
            field: "attrs",
            expected: "object",
        })),
        r matches Err(e) ==> !(e.kind is MalformedInput),
        match r {
            Ok(a) => status_attrs_of(*v, a),
            Err(_) => forall|a: StatusAttrs| !status_attrs_of(*v, a),
        },
{
    let o = match object_members(v, variant) {
        Ok(x) => x,
        Err(e) => return Err(e),
    };
    let keys = vec!["localId", "text", "color"];
    assert(keys@ == seq!["localId", "text", "color"]);
    if let Err(e) = check_keys(o, variant, keys) {
        return Err(e);
    }
    let local_id = match opt_str_field(o, variant, "localId") {
        Ok(x) => x,
        Err(e) => return Err(e),
    };
    let text = match str_field(o, variant, "text") {
        Ok(x) => x,
        Err(e) => return Err(e),
    };
    let color = match str_field(o, variant, "color") {
        Ok(x) => x,
        Err(e) => return Err(e),
    };
    Ok(StatusAttrs { local_id, text, color })
}

/// The attributes object `v` reads as `a`.
pub open spec fn table_attrs_of(v: JsonValue, a: TableAttrs) -> bool {
    &&& v matches JsonValue::Object(o)
    &&& keys_within(o@, seq!["displayMode", "isNumberColumnEnabled", "layout", "width"])
    &&& opt_str_of(member(o@, "displayMode"@), a.display_mode)
        &&& opt_bool_of(member(o@, "isNumberColumnEnabled"@), a.is_number_column_enabled)
        &&& opt_str_of(member(o@, "layout"@), a.layout)
        &&& opt_u16_of(member(o@, "width"@), a.width)
}

pub fn read_table_attrs(v: &JsonValue, variant: &'static str) -> (r: Result<TableAttrs, DecodeError>)
    ensures
        !(*v is Object) ==> (r matches Err(e) && e.kind == (DecodeErrorKind::TypeMismatch {
            variant,
            field: "attrs",
            expected: "object",
        })),
        r matches Err(e) ==> !(e.kind is MalformedInput),
        match r {
            Ok(a) => table_attrs_of(*v, a),
            Err(_) => forall|a: TableAttrs| !table_attrs_of(*v, a),
        },
{
    let o = match object_members(v, variant) {
        Ok(x) => x,
        Err(e) => return Err(e),
    };
    let keys = vec!["displayMode", "isNumberColumnEnabled", "layout", "width"];
    assert(keys@ == seq!["displayMode", "isNumberColumnEnabled", "layout", "width"]);
    if let Err(e) = check_keys(o, variant, keys) {
        return Err(e);
    }
    let display_mode = match opt_str_field(o, variant, "displayMode") {
        Ok(x) => x,
        Err(e) => return Err(e),
    };
    let is_number_column_enabled = match opt_bool_field(o, variant, "isNumberColumnEnabled") {
        Ok(x) => x,
        Err(e) => return Err(e),
    };
    let layout = match opt_str_field(o, variant, "layout") {
        Ok(x) => x,
        Err(e) => return Err(e),
    };
    let width = match opt_u16_field(o, variant, "width") {
        Ok(x) => x,
        Err(e) => return Err(e),
    };
    Ok(TableAttrs { display_mode, is_number_column_enabled, layout, width })
}

/// The attributes object `v` reads as `a`.
pub open spec fn table_cell_attrs_of(v: JsonValue, a: TableCellAttrs) -> bool {
    &&& v matches JsonValue::Object(o)
    &&& keys_within(o@, seq!["background", "colspan", "colwidth", "rowspan"])
    &&& opt_str_of(member(o@, "background"@), a.background)
        &&& opt_u16_of(member(o@, "colspan"@), a.colspan)
        &&& opt_u16s_of(member(o@, "colwidth"@), a.colwidth)
        &&& opt_u16_of(member(o@, "rowspan"@), a.rowspan)
}

pub fn read_table_cell_attrs(v: &JsonValue, variant: &'static str) -> (r: Result<TableCellAttrs, DecodeError>)
    ensures
        !(*v is Object) ==> (r matches Err(e) && e.kind == (DecodeErrorKind::TypeMismatch {
            variant,
            field: "attrs",
            expected: "object",
        })),
        r matches Err(e) ==> !(e.kind is MalformedInput),
        match r {
            Ok(a) => table_cell_attrs_of(*v, a),
            Err(_) => forall|a: TableCellAttrs| !table_cell_attrs_of(*v, a),
        },
{
    let o = match object_members(v, variant) {
        Ok(x) => x,
        Err(e) => return Err(e),
    };
    let keys = vec!["background", "colspan", "colwidth", "rowspan"];
    assert(keys@ == seq!["background", "colspan", "colwidth", "rowspan"]);
    if let Err(e) = check_keys(o, variant, keys) {
        return Err(e);
    }
    let background = match opt_str_field(o, variant, "background") {
        Ok(x) => x,
        Err(e) => return Err(e),
    };
    let colspan = match opt_u16_field(o, variant, "colspan") {
        Ok(x) => x,
        Err(e) => return Err(e),
    };
    let colwidth = match opt_u16s_field(o, variant, "colwidth") {
        Ok(x) => x,
        Err(e) => return Err(e),
    };
    let rowspan = match opt_u16_field(o, variant, "rowspan") {
        Ok(x) => x,
        Err(e) => return Err(e),
    };
    Ok(TableCellAttrs { background, colspan, colwidth, rowspan })
}


/// `{"type": "sup"}` or `{"type": "sub"}`.
pub open spec fn sub_sup_attrs_of(v: JsonValue, a: SubSupAttrs) -> bool {
    &&& v matches JsonValue::Object(o)
    &&& keys_within(o@, seq!["type"])
    &&& member(o@, "type"@) matches Some(JsonValue::Str(t))
    &&& match a {
        SubSupAttrs::Sup => t@ == "sup"@,
        SubSupAttrs::Sub => t@ == "sub"@,
    }
}

pub fn read_sub_sup_attrs(v: &JsonValue, variant: &'static str) -> (r: Result<SubSupAttrs, DecodeError>)
    ensures
        !(*v is Object) ==> (r matches Err(e) && e.kind == (DecodeErrorKind::TypeMismatch {
            variant,
            field: "attrs",
            expected: "object",
        })),
        r matches Err(e) ==> !(e.kind is MalformedInput),
        match r {
            Ok(a) => sub_sup_attrs_of(*v, a),
            Err(_) => forall|a: SubSupAttrs| !sub_sup_attrs_of(*v, a),
        },
{
    let o = match object_members(v, variant) {
        Ok(x) => x,
        Err(e) => return Err(e),
    };
    let keys = vec!["type"];
    assert(keys@ == seq!["type"]);
    if let Err(e) = check_keys(o, variant, keys) {
        return Err(e);
    }
    match find_member(o, "type") {
        None => Err(missing(variant, "type")),
        Some(i) => match &o[i].1 {
            JsonValue::Str(t) => {
                if same_text(t, "sup") {
                    Ok(SubSupAttrs::Sup)
                } else if same_text(t, "sub") {
                    Ok(SubSupAttrs::Sub)
                } else {
                    Err(error_at(DecodeErrorKind::UnknownVariant(t.clone())))
                }
            },
            _ => Err(mismatch(variant, "type", "string")),
        },
    }
}

} // verus!
