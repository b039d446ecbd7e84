//! The wire format: each value as the JSON text that the webhook endpoint
//! reads. A field that was not set has no member in its object; the members
//! that are there stand in the order of the fields.

use crate::json::{
    json_array, json_bool, json_integer, json_member, json_object, json_string, member_views,
    texts,
    write_array, write_bool, write_integer, write_object, write_string, Member,
};
use crate::types::embed::{
    field_views, text_view, Embed, EmbedAuthor, EmbedAuthorView, EmbedField, EmbedFieldView, EmbedFooter,
    EmbedFooterView, EmbedImage, EmbedMediaView, EmbedProvider, EmbedProviderView,
    EmbedThumbnail, EmbedVideo, EmbedView, EMBED_TYPE,
};
use crate::types::webhook::{
    embed_views, str_views, AllowedMention, AllowedMentionType, AllowedMentionView, Webhook,
    WebhookView,
};
use vstd::prelude::*;

verus! {

/// The members of one object: each a key with the JSON text of its value.
pub type Members = Seq<(Seq<char>, Seq<char>)>;

/// The member `key` of an object, where its value has a JSON text.
pub open spec fn member(key: Seq<char>, value: Option<Seq<char>>) -> Members {
    match value {
        Some(json) => seq![(key, json)],
        None => Seq::empty(),
    }
}

/// The JSON string of a text that may be unset.
pub open spec fn string_json(text: Option<Seq<char>>) -> Option<Seq<char>> {
    match text {
        Some(t) => Some(json_string(t)),
        None => None,
    }
}

/// The JSON number of an integer that may be unset.
pub open spec fn integer_json(number: Option<int>) -> Option<Seq<char>> {
    match number {
        Some(n) => Some(json_integer(n)),
        None => None,
    }
}

/// The JSON literal of a flag that may be unset.
pub open spec fn bool_json(flag: Option<bool>) -> Option<Seq<char>> {
    match flag {
        Some(b) => Some(json_bool(b)),
        None => None,
    }
}

/// The JSON array of the numbers `bytes`.
pub open spec fn bytes_json(bytes: Seq<u8>) -> Seq<char> {
    json_array(bytes.map_values(|b: u8| json_integer(b as int)))
}

/// The JSON array of the strings `items`.
pub open spec fn strings_json(items: Seq<Seq<char>>) -> Seq<char> {
    json_array(items.map_values(|t: Seq<char>| json_string(t)))
}

impl EmbedFooterView {
    /// The members of the footer's object.
    pub open spec fn members(self) -> Members {
        member("text"@, Some(json_string(self.text))) + member(
            "icon_url"@,
            string_json(self.icon_url),
        ) + member("proxy_icon_url"@, string_json(self.proxy_icon_url))
    }

    /// The footer as a JSON object.
    pub open spec fn json(self) -> Seq<char> {
        json_object(self.members())
    }
}

impl EmbedMediaView {
    /// The members of the object of an image, a thumbnail or a video.
    pub open spec fn members(self) -> Members {
        member("url"@, string_json(self.url)) + member("proxy_url"@, string_json(self.proxy_url))
            + member("height"@, integer_json(self.height)) + member(
            "width"@,
            integer_json(self.width),
        )
    }

    /// The image, thumbnail or video as a JSON object.
    pub open spec fn json(self) -> Seq<char> {
        json_object(self.members())
    }
}

impl EmbedProviderView {
    /// The members of the provider's object.
    pub open spec fn members(self) -> Members {
        member("name"@, string_json(self.name)) + member("url"@, string_json(self.url))
    }

    /// The provider as a JSON object.
    pub open spec fn json(self) -> Seq<char> {
        json_object(self.members())
    }
}

impl EmbedAuthorView {
    /// The members of the author's object.
    pub open spec fn members(self) -> Members {
        member("name"@, string_json(self.name)) + member("url"@, string_json(self.url)) + member(
            "icon_url"@,
            string_json(self.icon_url),
        ) + member("proxy_icon_url"@, string_json(self.proxy_icon_url))
    }

    /// The author as a JSON object.
    pub open spec fn json(self) -> Seq<char> {
        json_object(self.members())
    }
}

impl EmbedFieldView {
    /// The members of the field's object.
    pub open spec fn members(self) -> Members {
        member("name"@, Some(json_string(self.name))) + member(
            "value"@,
            Some(json_string(self.value)),
        ) + member("inline"@, bool_json(self.inline))
    }

    /// The field as a JSON object.
    pub open spec fn json(self) -> Seq<char> {
        json_object(self.members())
    }
}

/// The JSON object of a footer that may be unset.
pub open spec fn footer_json(footer: Option<EmbedFooterView>) -> Option<Seq<char>> {
    match footer {
        Some(f) => Some(f.json()),
        None => None,
    }
}

/// The JSON object of an image, a thumbnail or a video that may be unset.
pub open spec fn media_json(media: Option<EmbedMediaView>) -> Option<Seq<char>> {
    match media {
        Some(m) => Some(m.json()),
        None => None,
    }
}

/// The JSON object of a provider that may be unset.
pub open spec fn provider_json(provider: Option<EmbedProviderView>) -> Option<Seq<char>> {
    match provider {
        Some(p) => Some(p.json()),
        None => None,
    }
}

/// The JSON object of an author that may be unset.
pub open spec fn author_json(author: Option<EmbedAuthorView>) -> Option<Seq<char>> {
    match author {
        Some(a) => Some(a.json()),
        None => None,
    }
}

/// The JSON array of the fields of an embed, where they are set.
pub open spec fn fields_json(fields: Option<Seq<EmbedFieldView>>) -> Option<Seq<char>> {
    match fields {
        Some(f) => Some(json_array(f.map_values(|field: EmbedFieldView| field.json()))),
        None => None,
    }
}

impl EmbedView {
    /// The members of the embed's object; `type` is always among them.
    pub open spec fn members(self) -> Members {
        member("title"@, string_json(self.title)) + member(
            "type"@,
            Some(json_string(EMBED_TYPE@)),
        ) + member("description"@, string_json(self.description)) + member(
            "url"@,
            string_json(self.url),
        ) + member("timestamp"@, string_json(self.timestamp)) + member(
            "color"@,
            integer_json(self.color),
        ) + member("footer"@, footer_json(self.footer)) + member("image"@, media_json(self.image))
            + member("thumbnail"@, media_json(self.thumbnail)) + member(
            "video"@,
            media_json(self.video),
        ) + member("provider"@, provider_json(self.provider)) + member(
            "author"@,
            author_json(self.author),
        ) + member("fields"@, fields_json(self.fields))
    }

    /// The embed as a JSON object.
    pub open spec fn json(self) -> Seq<char> {
        json_object(self.members())
    }
}

impl AllowedMentionType {
    /// The word that stands for the mention type on the wire.
    pub open spec fn token(self) -> Seq<char> {
        match self {
            AllowedMentionType::RoleMention => "roles"@,
            AllowedMentionType::UserMention => "users"@,
            AllowedMentionType::EveryoneMention => "everyone"@,
        }
    }

    /// The word that stands for the mention type on the wire.
    pub fn wire_token(&self) -> (token: &'static str)
        ensures
            token@ == self.token(),
    {
        match self {
            AllowedMentionType::RoleMention => "roles",
            AllowedMentionType::UserMention => "users",
            AllowedMentionType::EveryoneMention => "everyone",
        }
    }
}

impl AllowedMentionView {
    /// The members of the policy's object; all four are always there.
    pub open spec fn members(self) -> Members {
        member(
            "parse"@,
            Some(json_array(self.parse.map_values(|t: AllowedMentionType| json_string(t.token())))),
        ) + member("roles"@, Some(strings_json(self.roles))) + member(
            "users"@,
            Some(strings_json(self.users)),
        ) + member("replied_user"@, Some(json_bool(self.replied_user)))
    }

    /// The policy as a JSON object.
    pub open spec fn json(self) -> Seq<char> {
        json_object(self.members())
    }
}

/// The JSON array of the bytes of a file, where one is set.
pub open spec fn file_json(file: Option<Seq<u8>>) -> Option<Seq<char>> {
    match file {
        Some(bytes) => Some(bytes_json(bytes)),
        None => None,
    }
}

/// The JSON array of the embeds of a message, where they are set.
pub open spec fn embeds_json(embeds: Option<Seq<EmbedView>>) -> Option<Seq<char>> {
    match embeds {
        Some(e) => Some(json_array(e.map_values(|embed: EmbedView| embed.json()))),
        None => None,
    }
}

/// The JSON object of a policy for mentions that may be unset.
pub open spec fn mention_json(mention: Option<AllowedMentionView>) -> Option<Seq<char>> {
    match mention {
        Some(m) => Some(m.json()),
        None => None,
    }
}

impl WebhookView {
    /// The members of the message's object.
    pub open spec fn members(self) -> Members {
        member("content"@, string_json(self.content)) + member(
            "username"@,
            string_json(self.username),
        ) + member("avatar_url"@, string_json(self.avatar_url)) + member(
            "tts"@,
            bool_json(self.tts),
        ) + member("file"@, file_json(self.file)) + member("embeds"@, embeds_json(self.embeds))
            + member("allowed_mentions"@, mention_json(self.allowed_mentions))
    }

    /// The message as a JSON object: the body of the request that sends it.
    pub open spec fn json(self) -> Seq<char> {
        json_object(self.members())
    }
}

/// Adds the member `key` to `members` where `value` holds its JSON text.
fn push_member(members: &mut Vec<Member>, key: &'static str, value: Option<String>)
    ensures
        member_views(final(members)@) == member_views(old(members)@) + member(
            key@,
            text_view(value),
        ),
{
    let ghost before = member_views(members@);
    match value {
        Some(json) => {
            members.push(Member { key, value: json });
            assert(member_views(members@) =~= before + member(key@, Some(json@)));
        },
        None => {
            assert(member_views(members@) =~= before + member(key@, None));
        },
    }
}

/// The JSON string of `text`, where it is set.
fn string_value(text: &Option<String>) -> (json: Option<String>)
    ensures
        text_view(json) == string_json(text_view(*text)),
{
    match text {
        Some(t) => Some(write_string(t.as_str())),
        None => None,
    }
}

/// The JSON string of the borrowed `text`, where it is set.
fn str_value(text: Option<&str>) -> (json: Option<String>)
    ensures
        text_view(json) == string_json(
            match text {
                Some(t) => Some(t@),
                None => None,
            },
        ),
{
    match text {
        Some(t) => Some(write_string(t)),
        None => None,
    }
}

/// The JSON number of `number`, where it is set.
fn integer_value(number: Option<i64>) -> (json: Option<String>)
    ensures
        text_view(json) == integer_json(
            match number {
                Some(n) => Some(n as int),
                None => None,
            },
        ),
{
    match number {
        Some(n) => Some(write_integer(n)),
        None => None,
    }
}

/// The JSON number of the dimension `number`, where it is set.
fn dimension_value(number: Option<i32>) -> (json: Option<String>)
    ensures
        text_view(json) == integer_json(
            match number {
                Some(n) => Some(n as int),
                None => None,
            },
        ),
{
    match number {
        Some(n) => Some(write_integer(n as i64)),
        None => None,
    }
}

/// The JSON literal of `flag`, where it is set.
fn bool_value(flag: Option<bool>) -> (json: Option<String>)
    ensures
        text_view(json) == bool_json(flag),
{
    match flag {
        Some(b) => Some(write_bool(b)),
        None => None,
    }
}

/// Writes the object of an image, a thumbnail or a video.
fn write_media(
    url: &Option<String>,
    proxy_url: &Option<String>,
    height: Option<i32>,
    width: Option<i32>,
) -> (text: String)
    ensures
        text@ == (EmbedMediaView {
            url: text_view(*url),
            proxy_url: text_view(*proxy_url),
            height: match height {
                Some(n) => Some(n as int),
                None => None,
            },
            width: match width {
                Some(n) => Some(n as int),
                None => None,
            },
        }).json(),
{
    let mut members: Vec<Member> = Vec::new();
    assert(member_views(members@) =~= Seq::empty());
    push_member(&mut members, "url", string_value(url));
    push_member(&mut members, "proxy_url", string_value(proxy_url));
    push_member(&mut members, "height", dimension_value(height));
    push_member(&mut members, "width", dimension_value(width));
    let ghost media = EmbedMediaView {
        url: text_view(*url),
        proxy_url: text_view(*proxy_url),
        height: match height {
            Some(n) => Some(n as int),
            None => None,
        },
        width: match width {
            Some(n) => Some(n as int),
            None => None,
        },
    };
    assert(member_views(members@) =~= media.members());
    write_object(&members)
}

impl EmbedFooter {
    /// Writes the footer as a JSON object.
    pub fn to_json(&self) -> (text: String)
        ensures
            text@ == self@.json(),
    {
        let mut members: Vec<Member> = Vec::new();
        assert(member_views(members@) =~= Seq::empty());
        push_member(&mut members, "text", Some(write_string(self.text.as_str())));
        push_member(&mut members, "icon_url", string_value(&self.icon_url));
        push_member(&mut members, "proxy_icon_url", string_value(&self.proxy_icon_url));
        assert(member_views(members@) =~= self@.members());
        write_object(&members)
    }
}

impl EmbedImage {
    /// Writes the image as a JSON object.
    pub fn to_json(&self) -> (text: String)
        ensures
            text@ == self@.json(),
    {
        write_media(&self.url, &self.proxy_url, self.height, self.width)
    }
}

impl EmbedThumbnail {
    /// Writes the thumbnail as a JSON object.
    pub fn to_json(&self) -> (text: String)
        ensures
            text@ == self@.json(),
    {
        write_media(&self.url, &self.proxy_url, self.height, self.width)
    }
}

impl EmbedVideo {
    /// Writes the video as a JSON object.
    pub fn to_json(&self) -> (text: String)
        ensures
            text@ == self@.json(),
    {
        write_media(&self.url, &self.proxy_url, self.height, self.width)
    }
}

impl EmbedProvider {
    /// Writes the provider as a JSON object.
    pub fn to_json(&self) -> (text: String)
        ensures
            text@ == self@.json(),
    {
        let mut members: Vec<Member> = Vec::new();
        assert(member_views(members@) =~= Seq::empty());
        push_member(&mut members, "name", string_value(&self.name));
        push_member(&mut members, "url", string_value(&self.url));
        assert(member_views(members@) =~= self@.members());
        write_object(&members)
    }
}

impl EmbedAuthor {
    /// Writes the author as a JSON object.
    pub fn to_json(&self) -> (text: String)
        ensures
            text@ == self@.json(),
    {
        let mut members: Vec<Member> = Vec::new();
        assert(member_views(members@) =~= Seq::empty());
        push_member(&mut members, "name", string_value(&self.name));
        push_member(&mut members, "url", string_value(&self.url));
        push_member(&mut members, "icon_url", string_value(&self.icon_url));
        push_member(&mut members, "proxy_icon_url", string_value(&self.proxy_icon_url));
        assert(member_views(members@) =~= self@.members());
        write_object(&members)
    }
}

impl EmbedField {
    /// Writes the field as a JSON object.
    pub fn to_json(&self) -> (text: String)
        ensures
            text@ == self@.json(),
    {
        let mut members: Vec<Member> = Vec::new();
        assert(member_views(members@) =~= Seq::empty());
        push_member(&mut members, "name", Some(write_string(self.name.as_str())));
        push_member(&mut members, "value", Some(write_string(self.value.as_str())));
        push_member(&mut members, "inline", bool_value(self.inline));
        assert(member_views(members@) =~= self@.members());
        write_object(&members)
    }
}

/// Writes the array of the fields of an embed.
fn write_fields(fields: &Vec<EmbedField>) -> (text: String)
    ensures
        Some(text@) == fields_json(Some(field_views(fields@))),
{
    let ghost all = field_views(fields@).map_values(
        |field: EmbedFieldView| field.json(),
    );
    let mut parts: Vec<String> = Vec::new();
    let mut i: usize = 0;
    while i < fields.len()
        invariant
            i <= fields.len(),
            all == field_views(fields@).map_values(
                |field: EmbedFieldView| field.json(),
            ),
            texts(parts@) =~= all.take(i as int),
        decreases fields.len() - i,
    {
        let part = fields[i].to_json();
        let ghost before = parts@;
        parts.push(part);
        proof {
            assert(texts(parts@) =~= texts(before).push(part@));
            assert(all.take(i + 1) =~= all.take(i as int).push(all[i as int]));
        }
        i = i + 1;
    }
    assert(texts(parts@) =~= all);
    write_array(&parts)
}

/// The JSON object of a block that is held by reference, where it is set.
fn footer_value(footer: Option<&EmbedFooter>) -> (json: Option<String>)
    ensures
        text_view(json) == footer_json(
            match footer {
                Some(f) => Some(f@),
                None => None,
            },
        ),
{
    match footer {
        Some(f) => Some(f.to_json()),
        None => None,
    }
}

impl<'a> Embed<'a> {
    /// Writes the embed as a JSON object.
    pub fn to_json(&self) -> (text: String)
        ensures
            text@ == self@.json(),
    {
        let mut members: Vec<Member> = Vec::new();
        assert(member_views(members@) =~= Seq::empty());
        push_member(&mut members, "title", string_value(&self.title));
        push_member(&mut members, "type", Some(write_string(EMBED_TYPE)));
        push_member(&mut members, "description", string_value(&self.description));
        push_member(&mut members, "url", string_value(&self.url));
        push_member(&mut members, "timestamp", string_value(&self.timestamp));
        push_member(&mut members, "color", integer_value(self.color));
        push_member(&mut members, "footer", footer_value(self.footer));
        push_member(
            &mut members,
            "image",
            match self.image {
                Some(image) => Some(image.to_json()),
                None => None,
            },
        );
        push_member(
            &mut members,
            "thumbnail",
            match self.thumbnail {
                Some(thumbnail) => Some(thumbnail.to_json()),
                None => None,
            },
        );
        push_member(
            &mut members,
            "video",
            match self.video {
                Some(video) => Some(video.to_json()),
                None => None,
            },
        );
        push_member(
            &mut members,
            "provider",
            match self.provider {
                Some(provider) => Some(provider.to_json()),
                None => None,
            },
        );
        push_member(
            &mut members,
            "author",
            match self.author {
                Some(author) => Some(author.to_json()),
                None => None,
            },
        );
        push_member(
            &mut members,
            "fields",
            match &self.fields {
                Some(fields) => Some(write_fields(fields)),
                None => None,
            },
        );
        assert(member_views(members@) =~= self@.members());
        write_object(&members)
    }
}

/// Writes the array of the strings `items`.
fn write_strings(items: &Vec<&str>) -> (text: String)
    ensures
        text@ == strings_json(str_views(items@)),
{
    let ghost all = str_views(items@).map_values(|t: Seq<char>| json_string(t));
    let mut parts: Vec<String> = Vec::new();
    let mut i: usize = 0;
    while i < items.len()
        invariant
            i <= items.len(),
            all == str_views(items@).map_values(|t: Seq<char>| json_string(t)),
            texts(parts@) =~= all.take(i as int),
        decreases items.len() - i,
    {
        let part = write_string(items[i]);
        let ghost before = parts@;
        parts.push(part);
        proof {
            assert(texts(parts@) =~= texts(before).push(part@));
            assert(all.take(i + 1) =~= all.take(i as int).push(all[i as int]));
        }
        i = i + 1;
    }
    assert(texts(parts@) =~= all);
    write_array(&parts)
}

/// Writes the array of the wire tokens of `types`.
fn write_tokens(types: &Vec<AllowedMentionType>) -> (text: String)
    ensures
        text@ == json_array(types@.map_values(|t: AllowedMentionType| json_string(t.token()))),
{
    let ghost all = types@.map_values(|t: AllowedMentionType| json_string(t.token()));
    let mut parts: Vec<String> = Vec::new();
    let mut i: usize = 0;
    while i < types.len()
        invariant
            i <= types.len(),
            all == types@.map_values(|t: AllowedMentionType| json_string(t.token())),
            texts(parts@) =~= all.take(i as int),
        decreases types.len() - i,
    {
        let part = write_string(types[i].wire_token());
        let ghost before = parts@;
        parts.push(part);
        proof {
            assert(texts(parts@) =~= texts(before).push(part@));
            assert(all.take(i + 1) =~= all.take(i as int).push(all[i as int]));
        }
        i = i + 1;
    }
    assert(texts(parts@) =~= all);
    write_array(&parts)
}

impl<'a> AllowedMention<'a> {
    /// Writes the policy as a JSON object.
    pub fn to_json(&self) -> (text: String)
        ensures
            text@ == self@.json(),
    {
        let mut members: Vec<Member> = Vec::new();
        assert(member_views(members@) =~= Seq::empty());
        push_member(&mut members, "parse", Some(write_tokens(&self.parse)));
        push_member(&mut members, "roles", Some(write_strings(&self.roles)));
        push_member(&mut members, "users", Some(write_strings(&self.users)));
        push_member(&mut members, "replied_user", Some(write_bool(self.replied_user)));
        assert(member_views(members@) =~= self@.members());
        write_object(&members)
    }
}

/// Writes the array of the numbers `bytes`.
fn write_bytes(bytes: &[u8]) -> (text: String)
    ensures
        text@ == bytes_json(bytes@),
{
    let ghost all = bytes@.map_values(|b: u8| json_integer(b as int));
    let mut parts: Vec<String> = Vec::new();
    let mut i: usize = 0;
    while i < bytes.len()
        invariant
            i <= bytes.len(),
            all == bytes@.map_values(|b: u8| json_integer(b as int)),
            texts(parts@) =~= all.take(i as int),
        decreases bytes.len() - i,
    {
        let part = write_integer(bytes[i] as i64);
        let ghost before = parts@;
        parts.push(part);
        proof {
            assert(texts(parts@) =~= texts(before).push(part@));
            assert(all.take(i + 1) =~= all.take(i as int).push(all[i as int]));
        }
        i = i + 1;
    }
    assert(texts(parts@) =~= all);
    write_array(&parts)
}

/// Writes the array of the embeds of a message.
fn write_embeds(embeds: &Vec<Embed>) -> (text: String)
    ensures
        Some(text@) == embeds_json(Some(embed_views(embeds@))),
{
    let ghost all = embed_views(embeds@).map_values(|embed: EmbedView| embed.json());
    let mut parts: Vec<String> = Vec::new();
    let mut i: usize = 0;
    while i < embeds.len()
        invariant
            i <= embeds.len(),
            all == embed_views(embeds@).map_values(|embed: EmbedView| embed.json()),
            texts(parts@) =~= all.take(i as int),
        decreases embeds.len() - i,
    {
        let part = embeds[i].to_json();
        let ghost before = parts@;
        parts.push(part);
        proof {
            assert(texts(parts@) =~= texts(before).push(part@));
            assert(all.take(i + 1) =~= all.take(i as int).push(all[i as int]));
        }
        i = i + 1;
    }
    assert(texts(parts@) =~= all);
    write_array(&parts)
}

impl<'a> Webhook<'a> {
    /// Writes the message as a JSON object: the body of the request that
    /// sends it.
    pub fn to_json(&self) -> (text: String)
        ensures
            text@ == self@.json(),
    {
        let mut members: Vec<Member> = Vec::new();
        assert(member_views(members@) =~= Seq::empty());
        push_member(&mut members, "content", str_value(self.content));
        push_member(&mut members, "username", str_value(self.username));
        push_member(&mut members, "avatar_url", str_value(self.avatar_url));
        push_member(&mut members, "tts", bool_value(self.tts));
        push_member(
            &mut members,
            "file",
            match self.file {
                Some(bytes) => Some(write_bytes(bytes)),
                None => None,
            },
        );
        push_member(
            &mut members,
            "embeds",
            match &self.embeds {
                Some(embeds) => Some(write_embeds(embeds)),
                None => None,
            },
        );
        push_member(
            &mut members,
            "allowed_mentions",
            match self.allowed_mentions {
                Some(mention) => Some(mention.to_json()),
                None => None,
            },
        );
        assert(member_views(members@) =~= self@.members());
        write_object(&members)
    }
}

/// How many members stand for an optional value: one where it is set.
pub open spec fn set_count<T>(value: Option<T>) -> nat {
    if value is Some {
        1
    } else {
        0
    }
}

/// The object of a message has one member for each field that is set, and
/// none for a field that is not.
pub proof fn lemma_unset_fields_are_omitted(message: WebhookView)
    ensures
        message.members().len() == set_count(message.content) + set_count(message.username)
            + set_count(message.avatar_url) + set_count(message.tts) + set_count(message.file)
            + set_count(message.embeds) + set_count(message.allowed_mentions),
        message == WebhookView::empty() ==> message.json() == seq!['{', '}'],
{
    if message == WebhookView::empty() {
        let members = message.members();
        assert(members =~= Seq::empty());
        assert(members.map_values(|m: (Seq<char>, Seq<char>)| json_member(m)) =~= Seq::<
            Seq<char>,
        >::empty());
        assert(message.json() =~= seq!['{', '}']);
    }
}

/// A message with nothing but its content is the object with the one member
/// `content`, whose value is the content as a JSON string.
pub proof fn lemma_content_alone(content: Seq<char>)
    ensures
        (WebhookView { content: Some(content), ..WebhookView::empty() }).json() == seq!['{']
            + json_string("content"@) + seq![':'] + json_string(content) + seq!['}'],
{
    let message = WebhookView { content: Some(content), ..WebhookView::empty() };
    let only = ("content"@, json_string(content));
    assert(message.members() =~= seq![only]);
    let parts = message.members().map_values(|m: (Seq<char>, Seq<char>)| json_member(m));
    assert(parts =~= seq![json_member(only)]);
    assert(message.json() =~= seq!['{'] + json_string("content"@) + seq![':'] + json_string(
        content,
    ) + seq!['}']);
}

} // verus!
