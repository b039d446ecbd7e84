//! A webhook message and the policy for the mentions in it.

use crate::error::ValidationError;
use crate::types::embed::{Embed, EmbedView};
use vstd::prelude::*;

verus! {

/// The most embeds that one message carries.
pub const MAX_EMBEDS: usize = 10;

/// The most ids that one list of an `AllowedMention` holds.
pub const MAX_MENTION_IDS: usize = 100;

/// What an optional borrowed text holds.
pub open spec fn str_view(text: Option<&str>) -> Option<Seq<char>> {
    match text {
        Some(t) => Some(t@),
        None => None,
    }
}

/// What each of `texts` holds.
pub open spec fn str_views(texts: Seq<&str>) -> Seq<Seq<char>> {
    texts.map_values(|t: &str| t@)
}

/// What each of `embeds` holds.
pub open spec fn embed_views(embeds: Seq<Embed>) -> Seq<EmbedView> {
    embeds.map_values(|e: Embed| e@)
}

/// The type of Allowed Mentions
#[derive(Clone, Copy, Debug, PartialEq, Eq, Structural)]
pub enum AllowedMentionType {
    /// Controls role mentions
    RoleMention,
    /// Controls user mentions
    UserMention,
    /// Controls @everyone and @here mentions
    EveryoneMention,
}

/// The allowed mention object allows for more granular control over mentions
/// without various hacks to the message content
#[derive(Clone, Debug)]
pub struct AllowedMention<'a> {
    /// An array of allowed mention types to parse from the content.
    pub parse: Vec<AllowedMentionType>,
    /// Array of role_ids to mention (Max size of 100)
    pub roles: Vec<&'a str>,
    /// Array of user_ids to mention (Max size of 100)
    pub users: Vec<&'a str>,
    /// For replies, whether to mention the author of the message being
    /// replied to (default false)
    pub replied_user: bool,
}

/// What an `AllowedMention` holds.
pub struct AllowedMentionView {
    pub parse: Seq<AllowedMentionType>,
    pub roles: Seq<Seq<char>>,
    pub users: Seq<Seq<char>>,
    pub replied_user: bool,
}

impl AllowedMentionView {
    /// The policy that nothing was set on.
    pub open spec fn empty() -> AllowedMentionView {
        AllowedMentionView {
            parse: Seq::empty(),
            roles: Seq::empty(),
            users: Seq::empty(),
            replied_user: false,
        }
    }

    /// Whether neither list of ids is longer than `MAX_MENTION_IDS`.
    pub open spec fn is_valid(self) -> bool {
        self.roles.len() <= MAX_MENTION_IDS && self.users.len() <= MAX_MENTION_IDS
    }

    /// The limit that the policy breaks, the roles being judged first; the
    /// error holds the length of the list that is too long.
    pub open spec fn refusal(self) -> Option<ValidationError> {
        if self.roles.len() > MAX_MENTION_IDS {
            Some(ValidationError::TooManyRoles { count: self.roles.len() as usize })
        } else if self.users.len() > MAX_MENTION_IDS {
            Some(ValidationError::TooManyUsers { count: self.users.len() as usize })
        } else {
            None
        }
    }
}

impl<'a> View for AllowedMention<'a> {
    type V = AllowedMentionView;

    open spec fn view(&self) -> AllowedMentionView {
        AllowedMentionView {
            parse: self.parse@,
            roles: str_views(self.roles@),
            users: str_views(self.users@),
            replied_user: self.replied_user,
        }
    }
}

impl<'a> Default for AllowedMention<'a> {
    fn default() -> (mention: AllowedMention<'a>)
        ensures
            mention@ == AllowedMentionView::empty(),
    {
        let mention = AllowedMention {
            parse: Vec::new(),
            roles: Vec::new(),
            users: Vec::new(),
            replied_user: false,
        };
        assert(mention@.roles =~= Seq::empty());
        assert(mention@.users =~= Seq::empty());
        mention
    }
}

/// Builder for `AllowedMention`.
pub struct AllowedMentionBuilder<'a> {
    inner: AllowedMention<'a>,
}

impl<'a> View for AllowedMentionBuilder<'a> {
    type V = AllowedMentionView;

    closed spec fn view(&self) -> AllowedMentionView {
        self.inner@
    }
}

impl<'a> Default for AllowedMentionBuilder<'a> {
    fn default() -> (builder: AllowedMentionBuilder<'a>)
        ensures
            builder@ == AllowedMentionView::empty(),
    {
        AllowedMentionBuilder::new()
    }
}

impl<'a> AllowedMentionBuilder<'a> {
    /// Whether `result` is what `build` gives: the policy as it was set
    /// where it breaks no limit, else the limit that it breaks.
    pub open spec fn builds(&self, result: Result<AllowedMention<'a>, ValidationError>) -> bool {
        match result {
            Ok(mention) => self@.refusal() is None && mention@ == self@ && mention@.is_valid(),
            Err(error) => self@.refusal() == Some(error),
        }
    }

    /// Create a new builder, with nothing set.
    pub fn new() -> (builder: Self)
        ensures
            builder@ == AllowedMentionView::empty(),
    {
        AllowedMentionBuilder { inner: AllowedMention::default() }
    }

    /// An array of allowed mention types to parse from the content.
    pub fn set_parse(self, parse: Vec<AllowedMentionType>) -> (builder: Self)
        ensures
            builder@ == (AllowedMentionView { parse: parse@, ..self@ }),
    {
        let mut inner = self.inner;
        inner.parse = parse;
        AllowedMentionBuilder { inner }
    }

    /// Array of role_ids to mention; `build` refuses more than
    /// `MAX_MENTION_IDS` of them
    pub fn set_roles(self, roles: Vec<&'a str>) -> (builder: Self)
        ensures
            builder@ == (AllowedMentionView { roles: str_views(roles@), ..self@ }),
    {
        let mut inner = self.inner;
        inner.roles = roles;
        AllowedMentionBuilder { inner }
    }

    /// Array of user_ids to mention; `build` refuses more than
    /// `MAX_MENTION_IDS` of them
    pub fn set_users(self, users: Vec<&'a str>) -> (builder: Self)
        ensures
            builder@ == (AllowedMentionView { users: str_views(users@), ..self@ }),
    {
        let mut inner = self.inner;
        inner.users = users;
        AllowedMentionBuilder { inner }
    }

    /// For replies, whether to mention the author of the message being
    /// replied to (default false)
    pub fn set_replied_user(self, replied_user: bool) -> (builder: Self)
        ensures
            builder@ == (AllowedMentionView { replied_user, ..self@ }),
    {
        let mut inner = self.inner;
        inner.replied_user = replied_user;
        AllowedMentionBuilder { inner }
    }

    /// Finish the policy.
    ///
    /// Fails if and only if a list of ids is longer than `MAX_MENTION_IDS`:
    /// with `TooManyRoles` where the roles are, else with `TooManyUsers`,
    /// each with the length of its list.
    pub fn build(self) -> (result: Result<AllowedMention<'a>, ValidationError>)
        ensures
            self.builds(result),
    {
        let roles = self.inner.roles.len();
        let users = self.inner.users.len();
        if roles > MAX_MENTION_IDS {
            Err(ValidationError::TooManyRoles { count: roles })
        } else if users > MAX_MENTION_IDS {
            Err(ValidationError::TooManyUsers { count: users })
        } else {
            Ok(self.inner)
        }
    }
}

/// A webhook
#[derive(Clone, Debug)]
pub struct Webhook<'a> {
    /// the message contents (up to 2000 characters)
    pub content: Option<&'a str>,
    /// override the default username of the webhook
    pub username: Option<&'a str>,
    /// override the default avatar of the webhook
    pub avatar_url: Option<&'a str>,
    /// true if this is a TTS message
    pub tts: Option<bool>,
    /// the contents of the file being sent
    pub file: Option<&'a [u8]>,
    /// embedded rich content
    pub embeds: Option<Vec<Embed<'a>>>,
    /// allowed mentions for the message
    pub allowed_mentions: Option<&'a AllowedMention<'a>>,
}

/// What a `Webhook` holds.
pub struct WebhookView {
    pub content: Option<Seq<char>>,
    pub username: Option<Seq<char>>,
    pub avatar_url: Option<Seq<char>>,
    pub tts: Option<bool>,
    pub file: Option<Seq<u8>>,
    pub embeds: Option<Seq<EmbedView>>,
    pub allowed_mentions: Option<AllowedMentionView>,
}

impl WebhookView {
    /// The message that nothing was set on.
    pub open spec fn empty() -> WebhookView {
        WebhookView {
            content: None,
            username: None,
            avatar_url: None,
            tts: None,
            file: None,
            embeds: None,
            allowed_mentions: None,
        }
    }

    /// How many of content, file and embeds are set.
    pub open spec fn kinds_set(self) -> nat {
        let content: nat = if self.content is Some { 1 } else { 0 };
        let file: nat = if self.file is Some { 1 } else { 0 };
        let embeds: nat = if self.embeds is Some { 1 } else { 0 };
        content + file + embeds
    }

    /// How many embeds the message carries.
    pub open spec fn embed_count(self) -> nat {
        match self.embeds {
            Some(embeds) => embeds.len(),
            None => 0,
        }
    }

    /// Whether the message is one that the API takes: exactly one of
    /// content, file and embeds, and no more than `MAX_EMBEDS` embeds.
    pub open spec fn is_valid(self) -> bool {
        self.kinds_set() == 1 && self.embed_count() <= MAX_EMBEDS
    }

    /// The limit that the message breaks, the kinds of content being judged
    /// before the number of embeds.
    pub open spec fn refusal(self) -> Option<ValidationError> {
        if self.kinds_set() != 1 {
            Some(ValidationError::ContentKinds { set: self.kinds_set() as usize })
        } else if self.embed_count() > MAX_EMBEDS {
            Some(ValidationError::TooManyEmbeds { count: self.embed_count() as usize })
        } else {
            None
        }
    }
}

impl<'a> View for Webhook<'a> {
    type V = WebhookView;

    open spec fn view(&self) -> WebhookView {
        WebhookView {
            content: str_view(self.content),
            username: str_view(self.username),
            avatar_url: str_view(self.avatar_url),
            tts: self.tts,
            file: match self.file {
                Some(bytes) => Some(bytes@),
                None => None,
            },
            embeds: match self.embeds {
                Some(embeds) => Some(embed_views(embeds@)),
                None => None,
            },
            allowed_mentions: match self.allowed_mentions {
                Some(mention) => Some(mention@),
                None => None,
            },
        }
    }
}

impl<'a> Default for Webhook<'a> {
    fn default() -> (webhook: Webhook<'a>)
        ensures
            webhook@ == WebhookView::empty(),
    {
        Webhook {
            content: None,
            username: None,
            avatar_url: None,
            tts: None,
            file: None,
            embeds: None,
            allowed_mentions: None,
        }
    }
}

/// Builder for `Webhook`.
pub struct WebhookBuilder<'a> {
    inner: Webhook<'a>,
}

impl<'a> View for WebhookBuilder<'a> {
    type V = WebhookView;

    closed spec fn view(&self) -> WebhookView {
        self.inner@
    }
}

impl<'a> Default for WebhookBuilder<'a> {
    fn default() -> (builder: WebhookBuilder<'a>)
        ensures
            builder@ == WebhookView::empty(),
    {
        WebhookBuilder::new()
    }
}

impl<'a> WebhookBuilder<'a> {
    /// Whether `result` is what `build` gives: the message as it was set
    /// where it breaks no limit, else the limit that it breaks.
    pub open spec fn builds(&self, result: Result<Webhook<'a>, ValidationError>) -> bool {
        match result {
            Ok(webhook) => self@.refusal() is None && webhook@ == self@ && webhook@.is_valid(),
            Err(error) => self@.refusal() == Some(error),
        }
    }

    /// Create a new builder, with nothing set.
    pub fn new() -> (builder: Self)
        ensures
            builder@ == WebhookView::empty(),
    {
        WebhookBuilder { inner: Webhook::default() }
    }

    /// the message contents (up to 2000 characters)
    pub fn set_content(self, content: &'a str) -> (builder: Self)
        ensures
            builder@ == (WebhookView { content: Some(content@), ..self@ }),
    {
        let mut inner = self.inner;
        inner.content = Some(content);
        WebhookBuilder { inner }
    }

    /// override the default username of the webhook
    pub fn set_username(self, username: &'a str) -> (builder: Self)
        ensures
            builder@ == (WebhookView { username: Some(username@), ..self@ }),
    {
        let mut inner = self.inner;
        inner.username = Some(username);
        WebhookBuilder { inner }
    }

    /// override the default avatar of the webhook
    pub fn set_avatar_url(self, avatar_url: &'a str) -> (builder: Self)
        ensures
            builder@ == (WebhookView { avatar_url: Some(avatar_url@), ..self@ }),
    {
        let mut inner = self.inner;
        inner.avatar_url = Some(avatar_url);
        WebhookBuilder { inner }
    }

    /// true if this is a TTS message
    pub fn set_tts(self, tts: bool) -> (builder: Self)
        ensures
            builder@ == (WebhookView { tts: Some(tts), ..self@ }),
    {
        let mut inner = self.inner;
        inner.tts = Some(tts);
        WebhookBuilder { inner }
    }

    /// the contents of the file being sent
    pub fn set_file(self, file: &'a [u8]) -> (builder: Self)
        ensures
            builder@ == (WebhookView { file: Some(file@), ..self@ }),
    {
        let mut inner = self.inner;
        inner.file = Some(file);
        WebhookBuilder { inner }
    }

    /// embedded rich content; `build` refuses more than `MAX_EMBEDS` embeds
    pub fn set_embeds(self, embeds: Vec<Embed<'a>>) -> (builder: Self)
        ensures
            builder@ == (WebhookView { embeds: Some(embed_views(embeds@)), ..self@ }),
    {
        let mut inner = self.inner;
        inner.embeds = Some(embeds);
        WebhookBuilder { inner }
    }

    /// allowed mentions for the message
    pub fn set_allowed_mentions(self, allowed_mentions: &'a AllowedMention<'a>) -> (builder: Self)
        ensures
            builder@ == (WebhookView { allowed_mentions: Some(allowed_mentions@), ..self@ }),
    {
        let mut inner = self.inner;
        inner.allowed_mentions = Some(allowed_mentions);
        WebhookBuilder { inner }
    }

    /// Finish the message.
    ///
    /// Fails with `ContentKinds` if and only if not exactly one of content,
    /// file and embeds is set, the error holding how many are; else with
    /// `TooManyEmbeds` if and only if there are more than `MAX_EMBEDS`
    /// embeds, the error holding how many.
    pub fn build(self) -> (result: Result<Webhook<'a>, ValidationError>)
        ensures
            self.builds(result),
    {
        let mut set: usize = 0;
        if self.inner.content.is_some() {
            set = set + 1;
        }
        if self.inner.file.is_some() {
            set = set + 1;
        }
        if self.inner.embeds.is_some() {
            set = set + 1;
        }
        if set != 1 {
            return Err(ValidationError::ContentKinds { set });
        }
        let count: usize = match &self.inner.embeds {
            Some(embeds) => embeds.len(),
            None => 0,
        };
        if count > MAX_EMBEDS {
            return Err(ValidationError::TooManyEmbeds { count });
        }
        Ok(self.inner)
    }
}

/// A message is taken exactly when one of content, file and embeds is set
/// and the two others are not, and it carries no more than `MAX_EMBEDS`
/// embeds; with none of the three set, or with two or all three of them,
/// it is refused with `ContentKinds`.
pub proof fn lemma_exactly_one_content_kind(message: WebhookView)
    ensures
        ({
            let content = message.content is Some;
            let file = message.file is Some;
            let embeds = message.embeds is Some;
            let one = (content && !file && !embeds) || (!content && file && !embeds) || (!content
                && !file && embeds);
            &&& message.refusal() is None <==> one && message.embed_count() <= MAX_EMBEDS
            &&& !one <==> (message.refusal() matches Some(e) && e is ContentKinds)
            &&& content && file && embeds ==> message.refusal() == Some(
                ValidationError::ContentKinds { set: 3 },
            )
            &&& !content && !file && !embeds ==> message.refusal() == Some(
                ValidationError::ContentKinds { set: 0 },
            )
        }),
{
}

/// A message with embeds alone is taken with up to `MAX_EMBEDS` of them and
/// refused with `TooManyEmbeds` and their number from there on.
pub proof fn lemma_embed_limit(message: WebhookView)
    requires
        message.content is None,
        message.file is None,
        message.embeds is Some,
    ensures
        message.embed_count() <= MAX_EMBEDS <==> message.refusal() is None,
        message.embed_count() > MAX_EMBEDS <==> message.refusal() == Some(
            ValidationError::TooManyEmbeds { count: message.embed_count() as usize },
        ),
{
}

/// A policy is taken with up to `MAX_MENTION_IDS` ids in each list; one with
/// more roles is refused with `TooManyRoles`, whatever the users are.
pub proof fn lemma_mention_limit(policy: AllowedMentionView)
    ensures
        policy.refusal() is None <==> policy.is_valid(),
        policy.roles.len() > MAX_MENTION_IDS <==> (policy.refusal() matches Some(e)
            && e is TooManyRoles),
        policy.roles.len() <= MAX_MENTION_IDS && policy.users.len() > MAX_MENTION_IDS <==> (
        policy.refusal() matches Some(e) && e is TooManyUsers),
{
}

/// Building a message is repeatable: two builders that hold the same are
/// both refused, with the same error, or both give messages that hold the
/// same.
pub proof fn lemma_webhook_build_is_repeatable<'a>(
    first: WebhookBuilder<'a>,
    second: WebhookBuilder<'a>,
    first_result: Result<Webhook<'a>, ValidationError>,
    second_result: Result<Webhook<'a>, ValidationError>,
)
    requires
        first@ == second@,
        first.builds(first_result),
        second.builds(second_result),
    ensures
        match (first_result, second_result) {
            (Ok(a), Ok(b)) => a@ == b@,
            (Err(a), Err(b)) => a == b,
            _ => false,
        },
{
}

/// Building a policy is repeatable: two builders that hold the same are
/// both refused, with the same error, or both give policies that hold the
/// same.
pub proof fn lemma_mention_build_is_repeatable<'a>(
    first: AllowedMentionBuilder<'a>,
    second: AllowedMentionBuilder<'a>,
    first_result: Result<AllowedMention<'a>, ValidationError>,
    second_result: Result<AllowedMention<'a>, ValidationError>,
)
    requires
        first@ == second@,
        first.builds(first_result),
        second.builds(second_result),
    ensures
        match (first_result, second_result) {
            (Ok(a), Ok(b)) => a@ == b@,
            (Err(a), Err(b)) => a == b,
            _ => false,
        },
{
}

} // verus!
