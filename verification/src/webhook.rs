//! A webhook request: the message, the name of the file it uploads, and the
//! HTTP request that delivers it.

use crate::error::ValidationError;
use crate::types::embed::text_view;
use crate::types::webhook::{Webhook, WebhookView};
use vstd::prelude::*;
use vstd::string::*;

verus! {

/// Where the webhooks of Discord are executed; the id and the token of one
/// follow, with a `/` between them.
pub const WEBHOOK_ENDPOINT: &'static str = "https://discord.com/api/webhooks/";

/// The name of the header that says what the body of a request is.
pub const CONTENT_TYPE: &'static str = "Content-Type";

/// What the body of every webhook request is.
pub const JSON_CONTENT: &'static str = "application/json";

/// The name of the header that carries the name of an uploaded file.
pub const CONTENT_DISPOSITION: &'static str = "Content-Disposition";

/// The URL at which the webhook `id` is executed with `token`.
pub open spec fn endpoint(id: Seq<char>, token: Seq<char>) -> Seq<char> {
    WEBHOOK_ENDPOINT@ + id + seq!['/'] + token
}

/// The URL at which the webhook `id` is executed with `token`. Neither is
/// judged: what the endpoint makes of them is the caller's to inspect.
pub fn endpoint_url(id: &str, token: &str) -> (url: String)
    ensures
        url@ == endpoint(id@, token@),
{
    proof {
        reveal_strlit("/");
    }
    let mut url = String::from_str(WEBHOOK_ENDPOINT);
    url.append(id);
    url.append("/");
    url.append(token);
    assert(url@ =~= endpoint(id@, token@));
    url
}

/// A webhook request
#[derive(Clone, Debug)]
pub struct WebhookRequest<'a> {
    /// The Webhook's payload
    pub data: Webhook<'a>,
    /// The name of the File to be send, if there is any
    pub file_name: Option<String>,
}

/// What a `WebhookRequest` holds.
pub struct WebhookRequestView {
    pub data: WebhookView,
    pub file_name: Option<Seq<char>>,
}

/// One header of an HTTP request.
#[derive(Clone, Debug)]
pub struct Header {
    /// the name of the header
    pub name: &'static str,
    /// what it says
    pub value: String,
}

impl View for Header {
    type V = (Seq<char>, Seq<char>);

    open spec fn view(&self) -> (Seq<char>, Seq<char>) {
        (self.name@, self.value@)
    }
}

/// One HTTP POST, ready to be sent.
#[derive(Clone, Debug)]
pub struct HttpPost {
    /// where the request goes
    pub url: String,
    /// its headers, in their order
    pub headers: Vec<Header>,
    /// its body
    pub body: String,
}

/// What an `HttpPost` holds.
pub struct HttpPostView {
    pub url: Seq<char>,
    pub headers: Seq<(Seq<char>, Seq<char>)>,
    pub body: Seq<char>,
}

impl View for HttpPost {
    type V = HttpPostView;

    open spec fn view(&self) -> HttpPostView {
        HttpPostView {
            url: self.url@,
            headers: self.headers@.map_values(|h: Header| h@),
            body: self.body@,
        }
    }
}

impl WebhookRequestView {
    /// The request that nothing was set on.
    pub open spec fn empty() -> WebhookRequestView {
        WebhookRequestView { data: WebhookView::empty(), file_name: None }
    }

    /// Whether the file that the message carries, if any, has a name.
    pub open spec fn is_valid(self) -> bool {
        self.data.file is Some ==> self.file_name is Some
    }

    /// The limit that the request breaks.
    pub open spec fn refusal(self) -> Option<ValidationError> {
        if self.data.file is Some && self.file_name is None {
            Some(ValidationError::MissingFileName)
        } else {
            None
        }
    }

    /// The headers of the request: the content type of its body, then the
    /// name of the file where one is set.
    pub open spec fn headers(self) -> Seq<(Seq<char>, Seq<char>)> {
        seq![(CONTENT_TYPE@, JSON_CONTENT@)] + match self.file_name {
            Some(name) => seq![(CONTENT_DISPOSITION@, name)],
            None => Seq::empty(),
        }
    }

    /// The one POST that delivers the request to `url`: its body is the
    /// message as JSON.
    pub open spec fn post_to(self, url: Seq<char>) -> HttpPostView {
        HttpPostView { url, headers: self.headers(), body: self.data.json() }
    }
}

impl<'a> View for WebhookRequest<'a> {
    type V = WebhookRequestView;

    open spec fn view(&self) -> WebhookRequestView {
        WebhookRequestView { data: self.data@, file_name: text_view(self.file_name) }
    }
}

impl<'a> Default for WebhookRequest<'a> {
    fn default() -> (request: WebhookRequest<'a>)
        ensures
            request@ == WebhookRequestView::empty(),
    {
        WebhookRequest { data: Webhook::default(), file_name: None }
    }
}

/// Builder for `WebhookRequest`.
pub struct WebhookRequestBuilder<'a> {
    inner: WebhookRequest<'a>,
}

impl<'a> View for WebhookRequestBuilder<'a> {
    type V = WebhookRequestView;

    closed spec fn view(&self) -> WebhookRequestView {
        self.inner@
    }
}

impl<'a> Default for WebhookRequestBuilder<'a> {
    fn default() -> (builder: WebhookRequestBuilder<'a>)
        ensures
            builder@ == WebhookRequestView::empty(),
    {
        WebhookRequestBuilder::new()
    }
}

impl<'a> WebhookRequestBuilder<'a> {
    /// Whether `result` is what `build` gives: the request as it was set
    /// where its file has a name, else `MissingFileName`.
    pub open spec fn builds(&self, result: Result<WebhookRequest<'a>, ValidationError>) -> bool {
        match result {
            Ok(request) => self@.refusal() is None && request@ == self@ && request@.is_valid(),
            Err(error) => self@.refusal() == Some(error),
        }
    }

    /// Create a builder, with nothing set.
    pub fn new() -> (builder: Self)
        ensures
            builder@ == WebhookRequestView::empty(),
    {
        WebhookRequestBuilder { inner: WebhookRequest::default() }
    }

    /// Set the webhook data to be send
    pub fn set_data(self, data: Webhook<'a>) -> (builder: Self)
        ensures
            builder@ == (WebhookRequestView { data: data@, ..self@ }),
    {
        let mut inner = self.inner;
        inner.data = data;
        WebhookRequestBuilder { inner }
    }

    /// Set the filename to be used for an uploaded file
    pub fn set_file_name(self, file_name: &str) -> (builder: Self)
        ensures
            builder@ == (WebhookRequestView { file_name: Some(file_name@), ..self@ }),
    {
        let mut inner = self.inner;
        inner.file_name = Some(file_name.to_owned());
        WebhookRequestBuilder { inner }
    }

    /// Build the WebhookRequest
    ///
    /// Fails with `MissingFileName` if and only if the message carries a
    /// file and no file name was set.
    pub fn build(self) -> (result: Result<WebhookRequest<'a>, ValidationError>)
        ensures
            self.builds(result),
    {
        if self.inner.data.file.is_some() && self.inner.file_name.is_none() {
            Err(ValidationError::MissingFileName)
        } else {
            Ok(self.inner)
        }
    }
}

impl<'a> WebhookRequest<'a> {
    /// The one POST that delivers the request to `url`: the message as JSON
    /// in the body, and the file name, where one is set, in the
    /// `Content-Disposition` header. The bytes of the file travel in the
    /// JSON like every other field; no multipart body is made.
    pub fn prepare_url(&self, url: &str) -> (post: HttpPost)
        ensures
            post@ == self@.post_to(url@),
    {
        let mut headers: Vec<Header> = Vec::new();
        headers.push(Header { name: CONTENT_TYPE, value: String::from_str(JSON_CONTENT) });
        match &self.file_name {
            Some(name) => {
                headers.push(Header { name: CONTENT_DISPOSITION, value: name.clone() });
            },
            None => {},
        }
        let post = HttpPost { url: url.to_owned(), headers, body: self.data.to_json() };
        assert(post@.headers =~= self@.headers());
        post
    }

    /// The one POST that delivers the request to the webhook `id` with
    /// `token`, at `endpoint(id, token)`.
    pub fn prepare(&self, id: &str, token: &str) -> (post: HttpPost)
        ensures
            post@ == self@.post_to(endpoint(id@, token@)),
    {
        let url = endpoint_url(id, token);
        self.prepare_url(url.as_str())
    }
}

/// A request is taken exactly when the message carries no file or a file
/// name is set; the one error is `MissingFileName`.
pub proof fn lemma_file_needs_name(request: WebhookRequestView)
    ensures
        request.refusal() is None <==> request.is_valid(),
        request.data.file is Some && request.file_name is None <==> request.refusal() == Some(
            ValidationError::MissingFileName,
        ),
{
}

/// Building a request is repeatable: two builders that hold the same are
/// both refused, with the same error, or both give requests that hold the
/// same, and so the same POST to any one URL.
pub proof fn lemma_request_build_is_repeatable<'a>(
    first: WebhookRequestBuilder<'a>,
    second: WebhookRequestBuilder<'a>,
    first_result: Result<WebhookRequest<'a>, ValidationError>,
    second_result: Result<WebhookRequest<'a>, ValidationError>,
    url: Seq<char>,
)
    requires
        first@ == second@,
        first.builds(first_result),
        second.builds(second_result),
    ensures
        match (first_result, second_result) {
            (Ok(a), Ok(b)) => a@ == b@ && a@.post_to(url) == b@.post_to(url),
            (Err(a), Err(b)) => a == b,
            _ => false,
        },
{
}

} // verus!
