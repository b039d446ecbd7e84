//! An embed, the rich card of a message, and the blocks it is made of.

use crate::color::{hex_color, is_color, parse_hex_color, MAX_COLOR};
use crate::error::ValidationError;
use vstd::prelude::*;

verus! {

/// What an optional text holds.
pub open spec fn text_view(text: Option<String>) -> Option<Seq<char>> {
    match text {
        Some(t) => Some(t@),
        None => None,
    }
}

/// What an optional number holds.
pub open spec fn number_view(number: Option<i32>) -> Option<int> {
    match number {
        Some(n) => Some(n as int),
        None => None,
    }
}

/// The footer of an embed.
#[derive(Clone, Debug)]
pub struct EmbedFooter {
    /// footer text
    pub text: String,
    /// url of footer icon (only supports http(s) and attachments)
    pub icon_url: Option<String>,
    /// a proxied url of footer icon
    pub proxy_icon_url: Option<String>,
}

/// What an `EmbedFooter` holds.
pub struct EmbedFooterView {
    pub text: Seq<char>,
    pub icon_url: Option<Seq<char>>,
    pub proxy_icon_url: Option<Seq<char>>,
}

impl EmbedFooterView {
    /// The footer that nothing was set on.
    pub open spec fn empty() -> EmbedFooterView {
        EmbedFooterView { text: Seq::empty(), icon_url: None, proxy_icon_url: None }
    }
}

impl View for EmbedFooter {
    type V = EmbedFooterView;

    open spec fn view(&self) -> EmbedFooterView {
        EmbedFooterView {
            text: self.text@,
            icon_url: text_view(self.icon_url),
            proxy_icon_url: text_view(self.proxy_icon_url),
        }
    }
}

impl Default for EmbedFooter {
    fn default() -> (footer: EmbedFooter)
        ensures
            footer@ == EmbedFooterView::empty(),
    {
        EmbedFooter { text: String::new(), icon_url: None, proxy_icon_url: None }
    }
}

/// Builder for `EmbedFooter`.
pub struct EmbedFooterBuilder {
    inner: EmbedFooter,
}

impl View for EmbedFooterBuilder {
    type V = EmbedFooterView;

    closed spec fn view(&self) -> EmbedFooterView {
        self.inner@
    }
}

impl Default for EmbedFooterBuilder {
    fn default() -> (builder: EmbedFooterBuilder)
        ensures
            builder@ == EmbedFooterView::empty(),
    {
        EmbedFooterBuilder::new()
    }
}

impl EmbedFooterBuilder {
    /// Create a new builder, with nothing set.
    pub fn new() -> (builder: Self)
        ensures
            builder@ == EmbedFooterView::empty(),
    {
        EmbedFooterBuilder { inner: EmbedFooter::default() }
    }

    /// footer text
    pub fn set_text(self, text: &str) -> (builder: Self)
        ensures
            builder@ == (EmbedFooterView { text: text@, ..self@ }),
    {
        let mut inner = self.inner;
        inner.text = text.to_owned();
        EmbedFooterBuilder { inner }
    }

    /// url of footer icon (only supports http(s) and attachments)
    pub fn set_icon_url(self, icon_url: &str) -> (builder: Self)
        ensures
            builder@ == (EmbedFooterView { icon_url: Some(icon_url@), ..self@ }),
    {
        let mut inner = self.inner;
        inner.icon_url = Some(icon_url.to_owned());
        EmbedFooterBuilder { inner }
    }

    /// a proxied url of footer icon
    pub fn set_proxy_icon_url(self, proxy_icon_url: &str) -> (builder: Self)
        ensures
            builder@ == (EmbedFooterView { proxy_icon_url: Some(proxy_icon_url@), ..self@ }),
    {
        let mut inner = self.inner;
        inner.proxy_icon_url = Some(proxy_icon_url.to_owned());
        EmbedFooterBuilder { inner }
    }

    /// Finish the footer.
    pub fn build(self) -> (footer: EmbedFooter)
        ensures
            footer@ == self@,
    {
        self.inner
    }
}

/// What an `EmbedImage`, an `EmbedThumbnail` or an `EmbedVideo` holds.
pub struct EmbedMediaView {
    pub url: Option<Seq<char>>,
    pub proxy_url: Option<Seq<char>>,
    pub height: Option<int>,
    pub width: Option<int>,
}

impl EmbedMediaView {
    /// The media block that nothing was set on.
    pub open spec fn empty() -> EmbedMediaView {
        EmbedMediaView { url: None, proxy_url: None, height: None, width: None }
    }
}

/// Embed image.
#[derive(Clone, Debug)]
pub struct EmbedImage {
    /// source url of image (only supports http(s) and attachments)
    pub url: Option<String>,
    /// a proxied url of the image
    pub proxy_url: Option<String>,
    /// height of image
    pub height: Option<i32>,
    /// width of image
    pub width: Option<i32>,
}

impl View for EmbedImage {
    type V = EmbedMediaView;

    open spec fn view(&self) -> EmbedMediaView {
        EmbedMediaView {
            url: text_view(self.url),
            proxy_url: text_view(self.proxy_url),
            height: number_view(self.height),
            width: number_view(self.width),
        }
    }
}

impl Default for EmbedImage {
    fn default() -> (image: EmbedImage)
        ensures
            image@ == EmbedMediaView::empty(),
    {
        EmbedImage { url: None, proxy_url: None, height: None, width: None }
    }
}

/// Builder for `EmbedImage`.
pub struct EmbedImageBuilder {
    inner: EmbedImage,
}

impl View for EmbedImageBuilder {
    type V = EmbedMediaView;

    closed spec fn view(&self) -> EmbedMediaView {
        self.inner@
    }
}

impl Default for EmbedImageBuilder {
    fn default() -> (builder: EmbedImageBuilder)
        ensures
            builder@ == EmbedMediaView::empty(),
    {
        EmbedImageBuilder::new()
    }
}

impl EmbedImageBuilder {
    /// Create a new builder, with nothing set.
    pub fn new() -> (builder: Self)
        ensures
            builder@ == EmbedMediaView::empty(),
    {
        EmbedImageBuilder { inner: EmbedImage::default() }
    }

    /// source url of image (only supports http(s) and attachments)
    pub fn set_url(self, url: &str) -> (builder: Self)
        ensures
            builder@ == (EmbedMediaView { url: Some(url@), ..self@ }),
    {
        let mut inner = self.inner;
        inner.url = Some(url.to_owned());
        EmbedImageBuilder { inner }
    }

    /// a proxied url of the image
    pub fn set_proxy_url(self, proxy_url: &str) -> (builder: Self)
        ensures
            builder@ == (EmbedMediaView { proxy_url: Some(proxy_url@), ..self@ }),
    {
        let mut inner = self.inner;
        inner.proxy_url = Some(proxy_url.to_owned());
        EmbedImageBuilder { inner }
    }

    /// height of image
    pub fn set_height(self, height: i32) -> (builder: Self)
        ensures
            builder@ == (EmbedMediaView { height: Some(height as int), ..self@ }),
    {
        let mut inner = self.inner;
        inner.height = Some(height);
        EmbedImageBuilder { inner }
    }

    /// width of image
    pub fn set_width(self, width: i32) -> (builder: Self)
        ensures
            builder@ == (EmbedMediaView { width: Some(width as int), ..self@ }),
    {
        let mut inner = self.inner;
        inner.width = Some(width);
        EmbedImageBuilder { inner }
    }

    /// Finish the image.
    pub fn build(self) -> (image: EmbedImage)
        ensures
            image@ == self@,
    {
        self.inner
    }
}

/// Embed thumbnail.
#[derive(Clone, Debug)]
pub struct EmbedThumbnail {
    /// source url of thumbnail (only supports http(s) and attachments)
    pub url: Option<String>,
    /// a proxied url of the thumbnail
    pub proxy_url: Option<String>,
    /// height of thumbnail
    pub height: Option<i32>,
    /// width of thumbnail
    pub width: Option<i32>,
}

impl View for EmbedThumbnail {
    type V = EmbedMediaView;

    open spec fn view(&self) -> EmbedMediaView {
        EmbedMediaView {
            url: text_view(self.url),
            proxy_url: text_view(self.proxy_url),
            height: number_view(self.height),
            width: number_view(self.width),
        }
    }
}

impl Default for EmbedThumbnail {
    fn default() -> (thumbnail: EmbedThumbnail)
        ensures
            thumbnail@ == EmbedMediaView::empty(),
    {
        EmbedThumbnail { url: None, proxy_url: None, height: None, width: None }
    }
}

/// Builder for `EmbedThumbnail`.
pub struct EmbedThumbnailBuilder {
    inner: EmbedThumbnail,
}

impl View for EmbedThumbnailBuilder {
    type V = EmbedMediaView;

    closed spec fn view(&self) -> EmbedMediaView {
        self.inner@
    }
}

impl Default for EmbedThumbnailBuilder {
    fn default() -> (builder: EmbedThumbnailBuilder)
        ensures
            builder@ == EmbedMediaView::empty(),
    {
        EmbedThumbnailBuilder::new()
    }
}

impl EmbedThumbnailBuilder {
    /// Create a new builder, with nothing set.
    pub fn new() -> (builder: Self)
        ensures
            builder@ == EmbedMediaView::empty(),
    {
        EmbedThumbnailBuilder { inner: EmbedThumbnail::default() }
    }

    /// source url of thumbnail (only supports http(s) and attachments)
    pub fn set_url(self, url: &str) -> (builder: Self)
        ensures
            builder@ == (EmbedMediaView { url: Some(url@), ..self@ }),
    {
        let mut inner = self.inner;
        inner.url = Some(url.to_owned());
        EmbedThumbnailBuilder { inner }
    }

    /// a proxied url of the thumbnail
    pub fn set_proxy_url(self, proxy_url: &str) -> (builder: Self)
        ensures
            builder@ == (EmbedMediaView { proxy_url: Some(proxy_url@), ..self@ }),
    {
        let mut inner = self.inner;
        inner.proxy_url = Some(proxy_url.to_owned());
        EmbedThumbnailBuilder { inner }
    }

    /// height of thumbnail
    pub fn set_height(self, height: i32) -> (builder: Self)
        ensures
            builder@ == (EmbedMediaView { height: Some(height as int), ..self@ }),
    {
        let mut inner = self.inner;
        inner.height = Some(height);
        EmbedThumbnailBuilder { inner }
    }

    /// width of thumbnail
    pub fn set_width(self, width: i32) -> (builder: Self)
        ensures
            builder@ == (EmbedMediaView { width: Some(width as int), ..self@ }),
    {
        let mut inner = self.inner;
        inner.width = Some(width);
        EmbedThumbnailBuilder { inner }
    }

    /// Finish the thumbnail.
    pub fn build(self) -> (thumbnail: EmbedThumbnail)
        ensures
            thumbnail@ == self@,
    {
        self.inner
    }
}

/// Embed video.
#[derive(Clone, Debug)]
pub struct EmbedVideo {
    /// source url of video
    pub url: Option<String>,
    /// a proxied url of the video
    pub proxy_url: Option<String>,
    /// height of video
    pub height: Option<i32>,
    /// width of video
    pub width: Option<i32>,
}

impl View for EmbedVideo {
    type V = EmbedMediaView;

    open spec fn view(&self) -> EmbedMediaView {
        EmbedMediaView {
            url: text_view(self.url),
            proxy_url: text_view(self.proxy_url),
            height: number_view(self.height),
            width: number_view(self.width),
        }
    }
}

impl Default for EmbedVideo {
    fn default() -> (video: EmbedVideo)
        ensures
            video@ == EmbedMediaView::empty(),
    {
        EmbedVideo { url: None, proxy_url: None, height: None, width: None }
    }
}

/// Builder for `EmbedVideo`.
pub struct EmbedVideoBuilder {
    inner: EmbedVideo,
}

impl View for EmbedVideoBuilder {
    type V = EmbedMediaView;

    closed spec fn view(&self) -> EmbedMediaView {
        self.inner@
    }
}

impl Default for EmbedVideoBuilder {
    fn default() -> (builder: EmbedVideoBuilder)
        ensures
            builder@ == EmbedMediaView::empty(),
    {
        EmbedVideoBuilder::new()
    }
}

impl EmbedVideoBuilder {
    /// Create a new builder, with nothing set.
    pub fn new() -> (builder: Self)
        ensures
            builder@ == EmbedMediaView::empty(),
    {
        EmbedVideoBuilder { inner: EmbedVideo::default() }
    }

    /// source url of video
    pub fn set_url(self, url: &str) -> (builder: Self)
        ensures
            builder@ == (EmbedMediaView { url: Some(url@), ..self@ }),
    {
        let mut inner = self.inner;
        inner.url = Some(url.to_owned());
        EmbedVideoBuilder { inner }
    }

    /// a proxied url of the video
    pub fn set_proxy_url(self, proxy_url: &str) -> (builder: Self)
        ensures
            builder@ == (EmbedMediaView { proxy_url: Some(proxy_url@), ..self@ }),
    {
        let mut inner = self.inner;
        inner.proxy_url = Some(proxy_url.to_owned());
        EmbedVideoBuilder { inner }
    }

    /// height of video
    pub fn set_height(self, height: i32) -> (builder: Self)
        ensures
            builder@ == (EmbedMediaView { height: Some(height as int), ..self@ }),
    {
        let mut inner = self.inner;
        inner.height = Some(height);
        EmbedVideoBuilder { inner }
    }

    /// width of video
    pub fn set_width(self, width: i32) -> (builder: Self)
        ensures
            builder@ == (EmbedMediaView { width: Some(width as int), ..self@ }),
    {
        let mut inner = self.inner;
        inner.width = Some(width);
        EmbedVideoBuilder { inner }
    }

    /// Finish the video.
    pub fn build(self) -> (video: EmbedVideo)
        ensures
            video@ == self@,
    {
        self.inner
    }
}

/// Embed provider.
#[derive(Clone, Debug)]
pub struct EmbedProvider {
    /// name of provider
    pub name: Option<String>,
    /// url of provider
    pub url: Option<String>,
}

/// What an `EmbedProvider` holds.
pub struct EmbedProviderView {
    pub name: Option<Seq<char>>,
    pub url: Option<Seq<char>>,
}

impl EmbedProviderView {
    /// The provider that nothing was set on.
    pub open spec fn empty() -> EmbedProviderView {
        EmbedProviderView { name: None, url: None }
    }
}

impl View for EmbedProvider {
    type V = EmbedProviderView;

    open spec fn view(&self) -> EmbedProviderView {
        EmbedProviderView { name: text_view(self.name), url: text_view(self.url) }
    }
}

impl Default for EmbedProvider {
    fn default() -> (provider: EmbedProvider)
        ensures
            provider@ == EmbedProviderView::empty(),
    {
        EmbedProvider { name: None, url: None }
    }
}

/// Builder for `EmbedProvider`.
pub struct EmbedProviderBuilder {
    inner: EmbedProvider,
}

impl View for EmbedProviderBuilder {
    type V = EmbedProviderView;

    closed spec fn view(&self) -> EmbedProviderView {
        self.inner@
    }
}

impl Default for EmbedProviderBuilder {
    fn default() -> (builder: EmbedProviderBuilder)
        ensures
            builder@ == EmbedProviderView::empty(),
    {
        EmbedProviderBuilder::new()
    }
}

impl EmbedProviderBuilder {
    /// Create a new builder, with nothing set.
    pub fn new() -> (builder: Self)
        ensures
            builder@ == EmbedProviderView::empty(),
    {
        EmbedProviderBuilder { inner: EmbedProvider::default() }
    }

    /// name of provider
    pub fn set_name(self, name: &str) -> (builder: Self)
        ensures
            builder@ == (EmbedProviderView { name: Some(name@), ..self@ }),
    {
        let mut inner = self.inner;
        inner.name = Some(name.to_owned());
        EmbedProviderBuilder { inner }
    }

    /// url of provider
    pub fn set_url(self, url: &str) -> (builder: Self)
        ensures
            builder@ == (EmbedProviderView { url: Some(url@), ..self@ }),
    {
        let mut inner = self.inner;
        inner.url = Some(url.to_owned());
        EmbedProviderBuilder { inner }
    }

    /// Finish the provider.
    pub fn build(self) -> (provider: EmbedProvider)
        ensures
            provider@ == self@,
    {
        self.inner
    }
}

/// Embed author.
#[derive(Clone, Debug)]
pub struct EmbedAuthor {
    /// name of author
    pub name: Option<String>,
    /// url of author
    pub url: Option<String>,
    /// url of author icon (only supports http(s) and attachments)
    pub icon_url: Option<String>,
    /// a proxied url of author icon
    pub proxy_icon_url: Option<String>,
}

/// What an `EmbedAuthor` holds.
pub struct EmbedAuthorView {
    pub name: Option<Seq<char>>,
    pub url: Option<Seq<char>>,
    pub icon_url: Option<Seq<char>>,
    pub proxy_icon_url: Option<Seq<char>>,
}

impl EmbedAuthorView {
    /// The author that nothing was set on.
    pub open spec fn empty() -> EmbedAuthorView {
        EmbedAuthorView { name: None, url: None, icon_url: None, proxy_icon_url: None }
    }
}

impl View for EmbedAuthor {
    type V = EmbedAuthorView;

    open spec fn view(&self) -> EmbedAuthorView {
        EmbedAuthorView {
            name: text_view(self.name),
            url: text_view(self.url),
            icon_url: text_view(self.icon_url),
            proxy_icon_url: text_view(self.proxy_icon_url),
        }
    }
}

impl Default for EmbedAuthor {
    fn default() -> (author: EmbedAuthor)
        ensures
            author@ == EmbedAuthorView::empty(),
    {
        EmbedAuthor { name: None, url: None, icon_url: None, proxy_icon_url: None }
    }
}

/// Builder for `EmbedAuthor`.
pub struct EmbedAuthorBuilder {
    inner: EmbedAuthor,
}

impl View for EmbedAuthorBuilder {
    type V = EmbedAuthorView;

    closed spec fn view(&self) -> EmbedAuthorView {
        self.inner@
    }
}

impl Default for EmbedAuthorBuilder {
    fn default() -> (builder: EmbedAuthorBuilder)
        ensures
            builder@ == EmbedAuthorView::empty(),
    {
        EmbedAuthorBuilder::new()
    }
}

impl EmbedAuthorBuilder {
    /// Create a new builder, with nothing set.
    pub fn new() -> (builder: Self)
        ensures
            builder@ == EmbedAuthorView::empty(),
    {
        EmbedAuthorBuilder { inner: EmbedAuthor::default() }
    }

    /// name of author
    pub fn set_name(self, name: &str) -> (builder: Self)
        ensures
            builder@ == (EmbedAuthorView { name: Some(name@), ..self@ }),
    {
        let mut inner = self.inner;
        inner.name = Some(name.to_owned());
        EmbedAuthorBuilder { inner }
    }

    /// url of author
    pub fn set_url(self, url: &str) -> (builder: Self)
        ensures
            builder@ == (EmbedAuthorView { url: Some(url@), ..self@ }),
    {
        let mut inner = self.inner;
        inner.url = Some(url.to_owned());
        EmbedAuthorBuilder { inner }
    }

    /// url of author icon (only supports http(s) and attachments)
    pub fn set_icon_url(self, icon_url: &str) -> (builder: Self)
        ensures
            builder@ == (EmbedAuthorView { icon_url: Some(icon_url@), ..self@ }),
    {
        let mut inner = self.inner;
        inner.icon_url = Some(icon_url.to_owned());
        EmbedAuthorBuilder { inner }
    }

    /// a proxied url of author icon
    pub fn set_proxy_icon_url(self, proxy_icon_url: &str) -> (builder: Self)
        ensures
            builder@ == (EmbedAuthorView { proxy_icon_url: Some(proxy_icon_url@), ..self@ }),
    {
        let mut inner = self.inner;
        inner.proxy_icon_url = Some(proxy_icon_url.to_owned());
        EmbedAuthorBuilder { inner }
    }

    /// Finish the author.
    pub fn build(self) -> (author: EmbedAuthor)
        ensures
            author@ == self@,
    {
        self.inner
    }
}

/// Embed field: one row of a name and a value.
#[derive(Clone, Debug)]
pub struct EmbedField {
    /// name of the field
    pub name: String,
    /// value of the field
    pub value: String,
    /// whether or not this field should display inline
    pub inline: Option<bool>,
}

/// What an `EmbedField` holds.
pub struct EmbedFieldView {
    pub name: Seq<char>,
    pub value: Seq<char>,
    pub inline: Option<bool>,
}

impl EmbedFieldView {
    /// The field that nothing was set on.
    pub open spec fn empty() -> EmbedFieldView {
        EmbedFieldView { name: Seq::empty(), value: Seq::empty(), inline: None }
    }
}

impl View for EmbedField {
    type V = EmbedFieldView;

    open spec fn view(&self) -> EmbedFieldView {
        EmbedFieldView { name: self.name@, value: self.value@, inline: self.inline }
    }
}

impl Default for EmbedField {
    fn default() -> (field: EmbedField)
        ensures
            field@ == EmbedFieldView::empty(),
    {
        EmbedField { name: String::new(), value: String::new(), inline: None }
    }
}

/// Builder for `EmbedField`.
pub struct EmbedFieldBuilder {
    inner: EmbedField,
}

impl View for EmbedFieldBuilder {
    type V = EmbedFieldView;

    closed spec fn view(&self) -> EmbedFieldView {
        self.inner@
    }
}

impl Default for EmbedFieldBuilder {
    fn default() -> (builder: EmbedFieldBuilder)
        ensures
            builder@ == EmbedFieldView::empty(),
    {
        EmbedFieldBuilder::new()
    }
}

impl EmbedFieldBuilder {
    /// Create a new builder, with nothing set.
    pub fn new() -> (builder: Self)
        ensures
            builder@ == EmbedFieldView::empty(),
    {
        EmbedFieldBuilder { inner: EmbedField::default() }
    }

    /// name of the field
    pub fn set_name(self, name: &str) -> (builder: Self)
        ensures
            builder@ == (EmbedFieldView { name: name@, ..self@ }),
    {
        let mut inner = self.inner;
        inner.name = name.to_owned();
        EmbedFieldBuilder { inner }
    }

    /// value of the field
    pub fn set_value(self, value: &str) -> (builder: Self)
        ensures
            builder@ == (EmbedFieldView { value: value@, ..self@ }),
    {
        let mut inner = self.inner;
        inner.value = value.to_owned();
        EmbedFieldBuilder { inner }
    }

    /// whether or not this field should display inline
    pub fn set_inline(self, inline: bool) -> (builder: Self)
        ensures
            builder@ == (EmbedFieldView { inline: Some(inline), ..self@ }),
    {
        let mut inner = self.inner;
        inner.inline = Some(inline);
        EmbedFieldBuilder { inner }
    }

    /// Finish the field.
    pub fn build(self) -> (field: EmbedField)
        ensures
            field@ == self@,
    {
        self.inner
    }
}

/// The type tag of every embed that a webhook sends.
pub const EMBED_TYPE: &'static str = "rich";

/// What an optional block that is held by reference holds.
pub open spec fn block_view<T: View>(block: Option<&T>) -> Option<T::V> {
    match block {
        Some(b) => Some(b@),
        None => None,
    }
}

/// What each of `fields` holds.
pub open spec fn field_views(fields: Seq<EmbedField>) -> Seq<EmbedFieldView> {
    fields.map_values(|f: EmbedField| f@)
}

/// An embed: one rich card of a message. Its type tag is always
/// `EMBED_TYPE`, so it has no field for it.
#[derive(Clone, Debug)]
pub struct Embed<'a> {
    /// title of embed
    pub title: Option<String>,
    /// description of embed
    pub description: Option<String>,
    /// url of embed
    pub url: Option<String>,
    /// timestamp of embed content
    pub timestamp: Option<String>,
    /// color code of the embed, a 24-bit RGB value
    pub color: Option<i64>,
    /// footer information
    pub footer: Option<&'a EmbedFooter>,
    /// image information
    pub image: Option<&'a EmbedImage>,
    /// thumbnail information
    pub thumbnail: Option<&'a EmbedThumbnail>,
    /// video information
    pub video: Option<&'a EmbedVideo>,
    /// provider information
    pub provider: Option<&'a EmbedProvider>,
    /// author information
    pub author: Option<&'a EmbedAuthor>,
    /// fields information
    pub fields: Option<Vec<EmbedField>>,
}

/// What an `Embed` holds.
pub struct EmbedView {
    pub title: Option<Seq<char>>,
    pub description: Option<Seq<char>>,
    pub url: Option<Seq<char>>,
    pub timestamp: Option<Seq<char>>,
    pub color: Option<int>,
    pub footer: Option<EmbedFooterView>,
    pub image: Option<EmbedMediaView>,
    pub thumbnail: Option<EmbedMediaView>,
    pub video: Option<EmbedMediaView>,
    pub provider: Option<EmbedProviderView>,
    pub author: Option<EmbedAuthorView>,
    pub fields: Option<Seq<EmbedFieldView>>,
}

impl EmbedView {
    /// The embed that nothing was set on.
    pub open spec fn empty() -> EmbedView {
        EmbedView {
            title: None,
            description: None,
            url: None,
            timestamp: None,
            color: None,
            footer: None,
            image: None,
            thumbnail: None,
            video: None,
            provider: None,
            author: None,
            fields: None,
        }
    }

    /// Whether the colour, where one is set, is a 24-bit value.
    pub open spec fn has_valid_color(self) -> bool {
        match self.color {
            Some(c) => is_color(c),
            None => true,
        }
    }
}

impl<'a> View for Embed<'a> {
    type V = EmbedView;

    open spec fn view(&self) -> EmbedView {
        EmbedView {
            title: text_view(self.title),
            description: text_view(self.description),
            url: text_view(self.url),
            timestamp: text_view(self.timestamp),
            color: match self.color {
                Some(c) => Some(c as int),
                None => None,
            },
            footer: block_view(self.footer),
            image: block_view(self.image),
            thumbnail: block_view(self.thumbnail),
            video: block_view(self.video),
            provider: block_view(self.provider),
            author: block_view(self.author),
            fields: match self.fields {
                Some(f) => Some(field_views(f@)),
                None => None,
            },
        }
    }
}

impl<'a> Default for Embed<'a> {
    fn default() -> (embed: Embed<'a>)
        ensures
            embed@ == EmbedView::empty(),
    {
        Embed {
            title: None,
            description: None,
            url: None,
            timestamp: None,
            color: None,
            footer: None,
            image: None,
            thumbnail: None,
            video: None,
            provider: None,
            author: None,
            fields: None,
        }
    }
}

/// Builder for `Embed`.
///
/// A colour is taken as it is given and judged by `build`: hexadecimal text
/// that writes no colour is remembered as malformed until another colour
/// replaces it.
pub struct EmbedBuilder<'a> {
    inner: Embed<'a>,
    malformed_color: bool,
}

impl<'a> View for EmbedBuilder<'a> {
    type V = EmbedView;

    closed spec fn view(&self) -> EmbedView {
        self.inner@
    }
}

impl<'a> Default for EmbedBuilder<'a> {
    fn default() -> (builder: EmbedBuilder<'a>)
        ensures
            builder@ == EmbedView::empty(),
            !builder.has_malformed_color(),
    {
        EmbedBuilder::new()
    }
}

impl<'a> EmbedBuilder<'a> {
    /// Whether the colour that was given last is hexadecimal text that
    /// writes no colour.
    pub closed spec fn has_malformed_color(&self) -> bool {
        self.malformed_color
    }

    /// The limit that the embed breaks: its colour is malformed, or no
    /// 24-bit value.
    pub open spec fn refusal(&self) -> Option<ValidationError> {
        if self.has_malformed_color() || !self@.has_valid_color() {
            Some(ValidationError::InvalidColor)
        } else {
            None
        }
    }

    /// Whether `result` is what `build` gives: the embed as it was set
    /// where its colour is in order, else `InvalidColor`.
    pub open spec fn builds(&self, result: Result<Embed<'a>, ValidationError>) -> bool {
        match result {
            Ok(embed) => self.refusal() is None && embed@ == self@ && embed@.has_valid_color(),
            Err(error) => self.refusal() == Some(error),
        }
    }

    /// Create a new builder, with nothing set.
    pub fn new() -> (builder: Self)
        ensures
            builder@ == EmbedView::empty(),
            !builder.has_malformed_color(),
    {
        EmbedBuilder { inner: Embed::default(), malformed_color: false }
    }

    /// title of embed
    pub fn set_title(self, title: &str) -> (builder: Self)
        ensures
            builder@ == (EmbedView { title: Some(title@), ..self@ }),
            builder.has_malformed_color() == self.has_malformed_color(),
    {
        let mut inner = self.inner;
        inner.title = Some(title.to_owned());
        EmbedBuilder { inner, malformed_color: self.malformed_color }
    }

    /// description of embed
    pub fn set_description(self, description: &str) -> (builder: Self)
        ensures
            builder@ == (EmbedView { description: Some(description@), ..self@ }),
            builder.has_malformed_color() == self.has_malformed_color(),
    {
        let mut inner = self.inner;
        inner.description = Some(description.to_owned());
        EmbedBuilder { inner, malformed_color: self.malformed_color }
    }

    /// url of embed
    pub fn set_url(self, url: &str) -> (builder: Self)
        ensures
            builder@ == (EmbedView { url: Some(url@), ..self@ }),
            builder.has_malformed_color() == self.has_malformed_color(),
    {
        let mut inner = self.inner;
        inner.url = Some(url.to_owned());
        EmbedBuilder { inner, malformed_color: self.malformed_color }
    }

    /// timestamp of embed content
    pub fn set_timestamp(self, timestamp: &str) -> (builder: Self)
        ensures
            builder@ == (EmbedView { timestamp: Some(timestamp@), ..self@ }),
            builder.has_malformed_color() == self.has_malformed_color(),
    {
        let mut inner = self.inner;
        inner.timestamp = Some(timestamp.to_owned());
        EmbedBuilder { inner, malformed_color: self.malformed_color }
    }

    /// color code of the embed in decimals; `build` refuses one that is no
    /// 24-bit value
    pub fn set_color_decimal(self, color: i64) -> (builder: Self)
        ensures
            builder@ == (EmbedView { color: Some(color as int), ..self@ }),
            !builder.has_malformed_color(),
    {
        let mut inner = self.inner;
        inner.color = Some(color);
        EmbedBuilder { inner, malformed_color: false }
    }

    /// color code of the embed in hexadecimal, with or without a leading
    /// `#`; `build` refuses text that writes no colour
    pub fn set_color_hex(self, color: &str) -> (builder: Self)
        ensures
            builder@ == (EmbedView { color: hex_color(color@), ..self@ }),
            builder.has_malformed_color() == (hex_color(color@) is None),
    {
        let mut inner = self.inner;
        let parsed = parse_hex_color(color);
        let malformed_color = parsed.is_none();
        inner.color = parsed;
        EmbedBuilder { inner, malformed_color }
    }

    /// footer information
    pub fn set_footer(self, footer: &'a EmbedFooter) -> (builder: Self)
        ensures
            builder@ == (EmbedView { footer: Some(footer@), ..self@ }),
            builder.has_malformed_color() == self.has_malformed_color(),
    {
        let mut inner = self.inner;
        inner.footer = Some(footer);
        EmbedBuilder { inner, malformed_color: self.malformed_color }
    }

    /// image information
    pub fn set_image(self, image: &'a EmbedImage) -> (builder: Self)
        ensures
            builder@ == (EmbedView { image: Some(image@), ..self@ }),
            builder.has_malformed_color() == self.has_malformed_color(),
    {
        let mut inner = self.inner;
        inner.image = Some(image);
        EmbedBuilder { inner, malformed_color: self.malformed_color }
    }

    /// thumbnail information
    pub fn set_thumbnail(self, thumbnail: &'a EmbedThumbnail) -> (builder: Self)
        ensures
            builder@ == (EmbedView { thumbnail: Some(thumbnail@), ..self@ }),
            builder.has_malformed_color() == self.has_malformed_color(),
    {
        let mut inner = self.inner;
        inner.thumbnail = Some(thumbnail);
        EmbedBuilder { inner, malformed_color: self.malformed_color }
    }

    /// video information
    pub fn set_video(self, video: &'a EmbedVideo) -> (builder: Self)
        ensures
            builder@ == (EmbedView { video: Some(video@), ..self@ }),
            builder.has_malformed_color() == self.has_malformed_color(),
    {
        let mut inner = self.inner;
        inner.video = Some(video);
        EmbedBuilder { inner, malformed_color: self.malformed_color }
    }

    /// provider information
    pub fn set_provider(self, provider: &'a EmbedProvider) -> (builder: Self)
        ensures
            builder@ == (EmbedView { provider: Some(provider@), ..self@ }),
            builder.has_malformed_color() == self.has_malformed_color(),
    {
        let mut inner = self.inner;
        inner.provider = Some(provider);
        EmbedBuilder { inner, malformed_color: self.malformed_color }
    }

    /// author information
    pub fn set_author(self, author: &'a EmbedAuthor) -> (builder: Self)
        ensures
            builder@ == (EmbedView { author: Some(author@), ..self@ }),
            builder.has_malformed_color() == self.has_malformed_color(),
    {
        let mut inner = self.inner;
        inner.author = Some(author);
        EmbedBuilder { inner, malformed_color: self.malformed_color }
    }

    /// fields information
    pub fn set_fields(self, fields: Vec<EmbedField>) -> (builder: Self)
        ensures
            builder@ == (EmbedView { fields: Some(field_views(fields@)), ..self@ }),
            builder.has_malformed_color() == self.has_malformed_color(),
    {
        let mut inner = self.inner;
        inner.fields = Some(fields);
        EmbedBuilder { inner, malformed_color: self.malformed_color }
    }

    /// Finish the embed.
    ///
    /// Fails with `InvalidColor` if and only if the colour that was given
    /// last is malformed hexadecimal text or a number outside 24 bits.
    pub fn build(self) -> (result: Result<Embed<'a>, ValidationError>)
        ensures
            self.builds(result),
    {
        if self.malformed_color {
            return Err(ValidationError::InvalidColor);
        }
        match self.inner.color {
            Some(c) => {
                if c < 0 || c > MAX_COLOR {
                    return Err(ValidationError::InvalidColor);
                }
            },
            None => {},
        }
        Ok(self.inner)
    }
}

/// Building an embed is repeatable: two builders that hold the same, and
/// were given a malformed colour or not alike, are both refused or both
/// give embeds that hold the same.
pub proof fn lemma_embed_build_is_repeatable<'a>(
    first: EmbedBuilder<'a>,
    second: EmbedBuilder<'a>,
    first_result: Result<Embed<'a>, ValidationError>,
    second_result: Result<Embed<'a>, ValidationError>,
)
    requires
        first@ == second@,
        first.has_malformed_color() == second.has_malformed_color(),
        first.builds(first_result),
        second.builds(second_result),
    ensures
        match (first_result, second_result) {
            (Ok(a), Ok(b)) => a@ == b@,
            (Err(a), Err(b)) => a == b,
            _ => false,
        },
{
}

/// An embed is built exactly when the colour that was given last, if any,
/// is a number of 24 bits or hexadecimal text that writes one; every
/// refusal is `InvalidColor`.
pub proof fn lemma_embed_color_decides<'a>(builder: EmbedBuilder<'a>)
    ensures
        builder.refusal() is None <==> !builder.has_malformed_color()
            && builder@.has_valid_color(),
        builder.refusal() is Some ==> builder.refusal() == Some(ValidationError::InvalidColor),
{
}

} // verus!
