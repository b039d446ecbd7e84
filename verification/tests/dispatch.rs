use dwbhk::{
    endpoint_url, EmbedBuilder, EmbedFieldBuilder, WebhookBuilder, WebhookRequestBuilder,
    CONTENT_DISPOSITION, CONTENT_TYPE, JSON_CONTENT, WEBHOOK_ENDPOINT,
};

#[test]
fn the_endpoint_of_a_webhook() {
    assert_eq!(WEBHOOK_ENDPOINT, "https://discord.com/api/webhooks/");
    assert_eq!(endpoint_url("123", "abc"), "https://discord.com/api/webhooks/123/abc");
}

#[test]
fn the_endpoint_takes_id_and_token_as_they_are() {
    assert_eq!(endpoint_url("", ""), "https://discord.com/api/webhooks//");
    assert_eq!(endpoint_url("a/b", "c d"), "https://discord.com/api/webhooks/a/b/c d");
    assert_eq!(endpoint_url("é", "✓"), "https://discord.com/api/webhooks/é/✓");
}

#[test]
fn one_post_to_the_endpoint_with_the_payload() {
    let data = WebhookBuilder::new().set_content("hello").build().unwrap();
    let request = WebhookRequestBuilder::new().set_data(data).build().unwrap();
    let post = request.prepare("123", "abc");
    assert_eq!(post.url, "https://discord.com/api/webhooks/123/abc");
    assert_eq!(post.body, "{\"content\":\"hello\"}");
    assert_eq!(post.body, request.data.to_json());
    assert_eq!(post.headers.len(), 1);
    assert_eq!(post.headers[0].name, "Content-Type");
    assert_eq!(post.headers[0].value, "application/json");
}

#[test]
fn one_post_to_a_given_url() {
    let data = WebhookBuilder::new().set_content("hello").build().unwrap();
    let request = WebhookRequestBuilder::new().set_data(data).build().unwrap();
    let post = request.prepare_url("http://localhost:8080/hook?wait=true");
    assert_eq!(post.url, "http://localhost:8080/hook?wait=true");
    assert_eq!(post.body, "{\"content\":\"hello\"}");
    assert_eq!(post.headers.len(), 1);
    assert_eq!(post.headers[0].name, CONTENT_TYPE);
    assert_eq!(post.headers[0].value, JSON_CONTENT);
}

#[test]
fn the_file_name_travels_in_a_header() {
    let bytes = [1u8, 2, 3];
    let data = WebhookBuilder::new().set_file(&bytes).build().unwrap();
    let request =
        WebhookRequestBuilder::new().set_data(data).set_file_name("notes.txt").build().unwrap();
    let post = request.prepare("1", "t");
    assert_eq!(post.url, "https://discord.com/api/webhooks/1/t");
    assert_eq!(post.body, "{\"file\":[1,2,3]}");
    assert_eq!(post.headers.len(), 2);
    assert_eq!(post.headers[0].name, "Content-Type");
    assert_eq!(post.headers[0].value, "application/json");
    assert_eq!(post.headers[1].name, CONTENT_DISPOSITION);
    assert_eq!(post.headers[1].name, "Content-Disposition");
    assert_eq!(post.headers[1].value, "notes.txt");
}

#[test]
fn a_file_name_without_a_file_travels_too() {
    let data = WebhookBuilder::new().set_content("hi").build().unwrap();
    let request =
        WebhookRequestBuilder::new().set_data(data).set_file_name("unused.txt").build().unwrap();
    let post = request.prepare_url("http://localhost/");
    assert_eq!(post.headers.len(), 2);
    assert_eq!(post.headers[1].value, "unused.txt");
}

#[test]
fn request_embed() {
    let req = WebhookRequestBuilder::new()
        .set_data(
            WebhookBuilder::new()
                .set_embeds(vec![EmbedBuilder::new()
                    .set_title("TITLEEEE")
                    .set_color_hex("#ff0000")
                    .set_description("Hello world!")
                    .set_fields(vec![EmbedFieldBuilder::new()
                        .set_name("Test")
                        .set_value("Value")
                        .build()])
                    .build()
                    .unwrap()])
                .build()
                .unwrap(),
        )
        .build()
        .unwrap();

    let post = req.prepare_url("http://localhost/hook");
    assert_eq!(post.url, "http://localhost/hook");
    assert_eq!(
        post.body,
        "{\"embeds\":[{\"title\":\"TITLEEEE\",\"type\":\"rich\",\
         \"description\":\"Hello world!\",\"color\":16711680,\
         \"fields\":[{\"name\":\"Test\",\"value\":\"Value\"}]}]}"
    );
    assert_eq!(post.headers.len(), 1);
}

#[test]
fn the_same_chain_twice_gives_the_same() {
    let chain = || {
        WebhookRequestBuilder::new()
            .set_data(
                WebhookBuilder::new()
                    .set_username("bot")
                    .set_embeds(vec![EmbedBuilder::new()
                        .set_title("again")
                        .set_color_hex("abcdef")
                        .build()
                        .unwrap()])
                    .build()
                    .unwrap(),
            )
            .set_file_name("f")
            .build()
            .unwrap()
    };
    let first = chain();
    let second = chain();
    assert_eq!(first.file_name, second.file_name);
    assert_eq!(first.data.username, second.data.username);
    assert_eq!(first.data.to_json(), second.data.to_json());
    assert_eq!(format!("{:?}", first), format!("{:?}", second));
    let a = first.prepare("1", "2");
    let b = second.prepare("1", "2");
    assert_eq!(a.url, b.url);
    assert_eq!(a.body, b.body);
    assert_eq!(format!("{:?}", a), format!("{:?}", b));
}
