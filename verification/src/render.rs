//! A rich message as the platform takes it: a `serenity` `CreateEmbed`,
//! filled from a [`ReplyEmbed`].
//!
//! A `CreateEmbed` is a map from keys to JSON values. What each of its
//! methods does to that map is stated here as its source shows it, and
//! [`create_embed`] is proved to leave exactly the map that
//! [`payload`] describes.

use crate::column::lines;
use crate::json::JsonValue;
use crate::reply::{
    field_values, Colour, EmbedValue, FieldBody, FieldBodyValue, FieldValue, ReplyEmbed,
};
use crate::text::decimal;
use serenity::builder::{CreateEmbed, CreateEmbedFooter};
use vstd::prelude::*;

verus! {

/// `serenity::builder::CreateEmbed`, of which nothing is known here but
/// what [`embed_entries`] names.
#[verifier::external_type_specification]
#[verifier::external_body]
pub struct ExCreateEmbed(CreateEmbed);

/// The map that a `CreateEmbed` holds: each key with the JSON value under
/// it, a number as the text that `serde_json` displays it with and the
/// members of an object in the order in which its map hands them out.
pub uninterp spec fn embed_entries(e: CreateEmbed) -> Map<Seq<char>, JsonValue>;

/// The JSON object that holds an address under `url`.
pub open spec fn url_object(url: Seq<char>) -> JsonValue {
    JsonValue::Object(seq![("url"@, JsonValue::Str(url))])
}

/// The JSON object that holds a text under `text`.
pub open spec fn text_object(text: Seq<char>) -> JsonValue {
    JsonValue::Object(seq![("text"@, JsonValue::Str(text))])
}

/// The JSON object of a field; its members stand in the order of their
/// keys.
pub open spec fn field_object(name: Seq<char>, value: Seq<char>, inline: bool) -> JsonValue {
    JsonValue::Object(
        seq![
            ("inline"@, JsonValue::Bool(inline)),
            ("name"@, JsonValue::Str(name)),
            ("value"@, JsonValue::Str(value)),
        ],
    )
}

/// A map with one more item in the array under `fields`. Without that key
/// the array starts with the item; where the key holds no array, nothing
/// changes.
pub open spec fn with_field_object(
    entries: Map<Seq<char>, JsonValue>,
    item: JsonValue,
) -> Map<Seq<char>, JsonValue> {
    if !entries.dom().contains("fields"@) {
        entries.insert("fields"@, JsonValue::Array(seq![item]))
    } else {
        match entries["fields"@] {
            JsonValue::Array(items) => entries.insert("fields"@, JsonValue::Array(items.push(item))),
            _ => entries,
        }
    }
}

/// The map that holds the string `rich` under `type` and nothing else.
pub open spec fn fresh_entries() -> Map<Seq<char>, JsonValue> {
    Map::<Seq<char>, JsonValue>::empty().insert("type"@, JsonValue::Str("rich"@))
}

/// `CreateEmbed::default`: the map holds the string `rich` under `type`
/// and nothing else.
#[verifier::external_body]
fn new_embed() -> (e: CreateEmbed)
    ensures
        embed_entries(e) == fresh_entries(),
{
    CreateEmbed::default()
}

/// `CreateEmbed::title`: puts the string under `title`.
#[verifier::external_body]
fn set_title(e: &mut CreateEmbed, title: &str)
    ensures
        embed_entries(*final(e)) == embed_entries(*old(e)).insert("title"@, JsonValue::Str(title@)),
{
    e.title(title);
}

/// `CreateEmbed::colour` with a number: puts that number under `color`.
#[verifier::external_body]
fn set_colour(e: &mut CreateEmbed, rgb: u32)
    ensures
        embed_entries(*final(e)) == embed_entries(*old(e)).insert(
            "color"@,
            JsonValue::Number(decimal(rgb as nat)),
        ),
{
    e.colour(rgb);
}

/// `CreateEmbed::description`: puts the string under `description`.
#[verifier::external_body]
fn set_description(e: &mut CreateEmbed, text: &str)
    ensures
        embed_entries(*final(e)) == embed_entries(*old(e)).insert(
            "description"@,
            JsonValue::Str(text@),
        ),
{
    e.description(text);
}

/// `CreateEmbed::thumbnail`: puts an object with the address under
/// `thumbnail`.
#[verifier::external_body]
fn set_thumbnail(e: &mut CreateEmbed, url: &str)
    ensures
        embed_entries(*final(e)) == embed_entries(*old(e)).insert("thumbnail"@, url_object(url@)),
{
    e.thumbnail(url);
}

/// `CreateEmbed::image`: puts an object with the address under `image`.
#[verifier::external_body]
fn set_image(e: &mut CreateEmbed, url: &str)
    ensures
        embed_entries(*final(e)) == embed_entries(*old(e)).insert("image"@, url_object(url@)),
{
    e.image(url);
}

/// `CreateEmbed::set_footer` with a footer that has a text and nothing
/// else: puts an object with the text under `footer`.
#[verifier::external_body]
fn set_footer(e: &mut CreateEmbed, text: &str)
    ensures
        embed_entries(*final(e)) == embed_entries(*old(e)).insert("footer"@, text_object(text@)),
{
    let mut footer = CreateEmbedFooter::default();
    footer.text(text);
    e.set_footer(footer);
}

/// `CreateEmbed::field`: appends the object of the field to the array
/// under `fields`.
#[verifier::external_body]
fn add_field(e: &mut CreateEmbed, name: &str, value: &str, inline: bool)
    ensures
        embed_entries(*final(e)) == with_field_object(
            embed_entries(*old(e)),
            field_object(name@, value@, inline),
        ),
{
    e.field(name, value, inline);
}

/// `Colour::DARK_RED` of `serenity`.
#[verifier::external_body]
fn dark_red() -> (rgb: u32)
    ensures
        rgb == 0x992D22,
{
    serenity::utils::Colour::DARK_RED.0
}

/// `Colour::DARK_PURPLE` of `serenity`.
#[verifier::external_body]
fn dark_purple() -> (rgb: u32)
    ensures
        rgb == 0x71368A,
{
    serenity::utils::Colour::DARK_PURPLE.0
}

impl Colour {
    /// The colour as a number: red, green and blue, eight bits each.
    pub open spec fn rgb_value(self) -> u32 {
        match self {
            Colour::DarkRed => 0x992D22,
            Colour::DarkPurple => 0x71368A,
        }
    }

    /// The colour as a number.
    pub fn rgb(self) -> (n: u32)
        ensures
            n == self.rgb_value(),
    {
        match self {
            Colour::DarkRed => dark_red(),
            Colour::DarkPurple => dark_purple(),
        }
    }
}

/// The text that a field shows: a note as it is, a column as its rows,
/// each followed by a line break.
pub open spec fn field_text(body: FieldBodyValue) -> Seq<char> {
    match body {
        FieldBodyValue::Note(t) => t,
        FieldBodyValue::Column(rows) => lines(rows),
    }
}

/// The JSON objects of the first `n` fields.
pub open spec fn field_objects(fields: Seq<FieldValue>, n: nat) -> Seq<JsonValue> {
    Seq::new(n, |i: int| field_object(fields[i].name, field_text(fields[i].body), fields[i].inline))
}

/// `entries` with `value` under `key`, if there is a value.
pub open spec fn with_optional(
    entries: Map<Seq<char>, JsonValue>,
    key: Seq<char>,
    value: Option<JsonValue>,
) -> Map<Seq<char>, JsonValue> {
    match value {
        Some(v) => entries.insert(key, v),
        None => entries,
    }
}

/// The JSON object of an optional address.
pub open spec fn optional_url(url: Option<Seq<char>>) -> Option<JsonValue> {
    match url {
        Some(u) => Some(url_object(u)),
        None => None,
    }
}

/// What a rich message holds apart from its fields.
pub open spec fn frame(e: EmbedValue) -> Map<Seq<char>, JsonValue> {
    let m = fresh_entries().insert("title"@, JsonValue::Str(e.title)).insert(
        "color"@,
        JsonValue::Number(decimal(e.colour.rgb_value() as nat)),
    );
    let m = with_optional(
        m,
        "description"@,
        match e.description {
            Some(d) => Some(JsonValue::Str(d)),
            None => None,
        },
    );
    let m = with_optional(m, "thumbnail"@, optional_url(e.thumbnail));
    let m = with_optional(m, "image"@, optional_url(e.image));
    with_optional(
        m,
        "footer"@,
        match e.footer {
            Some(t) => Some(text_object(t)),
            None => None,
        },
    )
}

/// The map of a rich message as the platform takes it: the string `rich`
/// under `type`, the title, the colour as a number, what is there of the
/// description, the two pictures and the footer, and, if the message has
/// fields, the array of their objects under `fields`.
pub open spec fn payload(e: EmbedValue) -> Map<Seq<char>, JsonValue> {
    if e.fields.len() == 0 {
        frame(e)
    } else {
        frame(e).insert("fields"@, JsonValue::Array(field_objects(e.fields, e.fields.len())))
    }
}

/// The frame of a rich message holds nothing under `fields`.
proof fn lemma_frame_without_fields(e: EmbedValue)
    ensures
        !frame(e).dom().contains("fields"@),
{
    reveal_strlit("fields");
    reveal_strlit("type");
    reveal_strlit("title");
    reveal_strlit("color");
    reveal_strlit("description");
    reveal_strlit("thumbnail");
    reveal_strlit("image");
    reveal_strlit("footer");
    assert("fields"@.len() == 6);
    assert("type"@.len() == 4);
    assert("title"@.len() == 5);
    assert("color"@.len() == 5);
    assert("description"@.len() == 11);
    assert("thumbnail"@.len() == 9);
    assert("image"@.len() == 5);
    assert("fields"@[1] != "footer"@[1]);
}

fn field_string(body: &FieldBody) -> (r: String)
    ensures
        r@ == field_text(body@),
{
    match body {
        FieldBody::Note(t) => t.clone(),
        FieldBody::Column(c) => c.rendered(),
    }
}

/// Fills a `CreateEmbed` from a rich message.
pub fn create_embed(embed: &ReplyEmbed) -> (e: CreateEmbed)
    ensures
        embed_entries(e) == payload(embed@),
{
    let mut e = new_embed();
    set_title(&mut e, embed.title().as_str());
    set_colour(&mut e, embed.colour().rgb());
    match embed.description_text() {
        Some(text) => set_description(&mut e, text.as_str()),
        None => {},
    }
    match embed.thumbnail_url() {
        Some(url) => set_thumbnail(&mut e, url.as_str()),
        None => {},
    }
    match embed.image_url() {
        Some(url) => set_image(&mut e, url.as_str()),
        None => {},
    }
    match embed.footer_text() {
        Some(text) => set_footer(&mut e, text.as_str()),
        None => {},
    }
    assert(embed_entries(e) == frame(embed@));
    let fields = embed.fields();
    let ghost all = embed@.fields;
    let ghost base = frame(embed@);
    proof {
        lemma_frame_without_fields(embed@);
    }
    let mut i: usize = 0;
    while i < fields.len()
        invariant
            i <= fields.len(),
            all == field_values(fields@),
            !base.dom().contains("fields"@),
            embed_entries(e) == if i == 0 {
                base
            } else {
                base.insert("fields"@, JsonValue::Array(field_objects(all, i as nat)))
            },
        decreases fields.len() - i,
    {
        let field = &fields[i];
        let value = field_string(&field.body);
        let ghost item = field_object(field.name@, value@, field.inline);
        add_field(&mut e, field.name.as_str(), value.as_str(), field.inline);
        proof {
            assert(all[i as int] == field@);
            if i == 0 {
                assert(field_objects(all, 1) =~= seq![item]);
            } else {
                assert(field_objects(all, (i + 1) as nat) =~= field_objects(all, i as nat).push(
                    item,
                ));
                assert(base.insert("fields"@, JsonValue::Array(field_objects(all, i as nat))).insert(
                    "fields"@,
                    JsonValue::Array(field_objects(all, (i + 1) as nat)),
                ) =~= base.insert("fields"@, JsonValue::Array(field_objects(all, (i + 1) as nat))));
            }
        }
        i += 1;
    }
    e
}

} // verus!
