//! Builds Discord webhook messages, checks them against the limits of the
//! webhook API, and prepares the HTTP request that delivers them.
//!
//! Every value is assembled by a builder: setters take the builder by value
//! and give it back with one field replaced, and `build` checks what the API
//! would refuse before anything is sent.
//!
//! ```
//! use dwbhk::{EmbedBuilder, EmbedFieldBuilder, WebhookBuilder, WebhookRequestBuilder};
//!
//! # fn main() -> Result<(), dwbhk::ValidationError> {
//! let embed = EmbedBuilder::new()
//!     .set_title("The Embed Title")
//!     .set_color_hex("#ff0000") // Red
//!     .set_description("Hello world!")
//!     .set_fields(vec![
//!         EmbedFieldBuilder::new().set_name("Field Name").set_value("Field Value").build(),
//!     ])
//!     .build()?;
//! let data = WebhookBuilder::new().set_embeds(vec![embed]).build()?;
//! let req = WebhookRequestBuilder::new().set_data(data).build()?;
//!
//! let post = req.prepare("123", "abc");
//! assert_eq!(post.url, "https://discord.com/api/webhooks/123/abc");
//! # Ok(())
//! # }
//! ```

pub mod color;
pub mod error;
pub mod json;
pub mod types;
pub mod webhook;
pub mod wire;

pub use color::{parse_hex_color, MAX_COLOR};
pub use error::ValidationError;
pub use types::embed::{
    Embed, EmbedAuthor, EmbedAuthorBuilder, EmbedBuilder, EmbedField, EmbedFieldBuilder,
    EmbedFooter, EmbedFooterBuilder, EmbedImage, EmbedImageBuilder, EmbedProvider,
    EmbedProviderBuilder, EmbedThumbnail, EmbedThumbnailBuilder, EmbedVideo, EmbedVideoBuilder,
    EMBED_TYPE,
};
pub use types::webhook::{
    AllowedMention, AllowedMentionBuilder, AllowedMentionType, Webhook, WebhookBuilder,
    MAX_EMBEDS, MAX_MENTION_IDS,
};
pub use webhook::{
    endpoint_url, Header, HttpPost, WebhookRequest, WebhookRequestBuilder, CONTENT_DISPOSITION,
    CONTENT_TYPE, JSON_CONTENT, WEBHOOK_ENDPOINT,
};
