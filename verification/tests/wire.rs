use dwbhk::json::{write_array, write_bool, write_integer, write_object, write_string, Member};
use dwbhk::{
    AllowedMentionBuilder, AllowedMentionType, Embed, EmbedAuthorBuilder, EmbedBuilder,
    EmbedFieldBuilder, EmbedFooterBuilder, EmbedImageBuilder, EmbedProviderBuilder,
    EmbedThumbnailBuilder, EmbedVideoBuilder, WebhookBuilder, EMBED_TYPE,
};

#[test]
fn content_alone_is_the_only_member() {
    let webhook = WebhookBuilder::new().set_content("hello").build().unwrap();
    assert_eq!(webhook.to_json(), "{\"content\":\"hello\"}");
}

#[test]
fn content_alone_parses_to_one_key() {
    let webhook = WebhookBuilder::new().set_content("hello").build().unwrap();
    let parsed: serde_json::Value = serde_json::from_str(&webhook.to_json()).unwrap();
    let object = parsed.as_object().unwrap();
    assert_eq!(object.len(), 1);
    assert_eq!(object.get("content").and_then(|v| v.as_str()), Some("hello"));
    assert!(object.values().all(|v| !v.is_null()));
}

#[test]
fn strings_are_quoted() {
    assert_eq!(write_string("hello"), "\"hello\"");
    assert_eq!(write_string(""), "\"\"");
    assert_ne!(write_string("hello"), "hello");
}

#[test]
fn quotes_and_backslashes_are_escaped() {
    assert_eq!(write_string("say \"hi\""), "\"say \\\"hi\\\"\"");
    assert_eq!(write_string("a\\b"), "\"a\\\\b\"");
    assert_eq!(write_string("/"), "\"/\"");
}

#[test]
fn control_characters_are_escaped() {
    assert_eq!(write_string("\u{8}"), "\"\\b\"");
    assert_eq!(write_string("\t"), "\"\\t\"");
    assert_eq!(write_string("\n"), "\"\\n\"");
    assert_eq!(write_string("\u{c}"), "\"\\f\"");
    assert_eq!(write_string("\r"), "\"\\r\"");
    assert_eq!(write_string("\u{0}"), "\"\\u0000\"");
    assert_eq!(write_string("\u{1}"), "\"\\u0001\"");
    assert_eq!(write_string("\u{b}"), "\"\\u000b\"");
    assert_eq!(write_string("\u{1b}"), "\"\\u001b\"");
    assert_eq!(write_string("\u{1f}"), "\"\\u001f\"");
    assert_eq!(write_string("line\nbreak"), "\"line\\nbreak\"");
}

#[test]
fn other_characters_stand_for_themselves() {
    assert_eq!(write_string(" "), "\" \"");
    assert_eq!(write_string("\u{7f}"), "\"\u{7f}\"");
    assert_eq!(write_string("héllo ✓ 🎉"), "\"héllo ✓ 🎉\"");
    assert_eq!(write_string("<@&123>"), "\"<@&123>\"");
}

#[test]
fn integers_are_written_in_decimal() {
    assert_eq!(write_integer(0), "0");
    assert_eq!(write_integer(7), "7");
    assert_eq!(write_integer(10), "10");
    assert_eq!(write_integer(16711680), "16711680");
    assert_eq!(write_integer(-1), "-1");
    assert_eq!(write_integer(-120), "-120");
    assert_eq!(write_integer(1000000007), "1000000007");
    assert_eq!(write_integer(i64::MAX), "9223372036854775807");
    assert_eq!(write_integer(i64::MIN), "-9223372036854775808");
}

#[test]
fn integers_are_written_as_the_standard_library_writes_them() {
    let samples: [i64; 12] =
        [0, 1, -1, 9, 10, 99, 100, 101, -2147483648, 2147483647, 123456789012, -98765432109876];
    for n in samples {
        assert_eq!(write_integer(n), n.to_string());
    }
}

#[test]
fn flags_are_written_as_literals() {
    assert_eq!(write_bool(true), "true");
    assert_eq!(write_bool(false), "false");
}

#[test]
fn arrays_are_joined_by_commas() {
    assert_eq!(write_array(&Vec::new()), "[]");
    assert_eq!(write_array(&vec!["1".to_string()]), "[1]");
    assert_eq!(write_array(&vec!["1".to_string(), "true".to_string()]), "[1,true]");
    assert_eq!(
        write_array(&vec!["1".to_string(), "[]".to_string(), "\"x\"".to_string()]),
        "[1,[],\"x\"]"
    );
}

#[test]
fn objects_hold_their_members_in_order() {
    assert_eq!(write_object(&Vec::new()), "{}");
    let one = vec![Member { key: "b", value: "1".to_string() }];
    assert_eq!(write_object(&one), "{\"b\":1}");
    let two = vec![
        Member { key: "b", value: "1".to_string() },
        Member { key: "a", value: "\"x\"".to_string() },
    ];
    assert_eq!(write_object(&two), "{\"b\":1,\"a\":\"x\"}");
}

#[test]
fn the_keys_of_an_object_are_escaped() {
    let odd = vec![Member { key: "a\"b", value: "null".to_string() }];
    assert_eq!(write_object(&odd), "{\"a\\\"b\":null}");
}

#[test]
fn a_footer_always_has_its_text() {
    assert_eq!(EmbedFooterBuilder::new().build().to_json(), "{\"text\":\"\"}");
    let footer = EmbedFooterBuilder::new()
        .set_text("sent by a bot")
        .set_icon_url("https://example.com/i.png")
        .set_proxy_icon_url("https://proxy.example.com/i.png")
        .build();
    assert_eq!(
        footer.to_json(),
        "{\"text\":\"sent by a bot\",\"icon_url\":\"https://example.com/i.png\",\
         \"proxy_icon_url\":\"https://proxy.example.com/i.png\"}"
    );
}

#[test]
fn media_blocks_share_one_shape() {
    assert_eq!(EmbedImageBuilder::new().build().to_json(), "{}");
    let image = EmbedImageBuilder::new()
        .set_url("https://example.com/a.png")
        .set_proxy_url("https://proxy.example.com/a.png")
        .set_height(480)
        .set_width(640)
        .build();
    let expected = "{\"url\":\"https://example.com/a.png\",\
                    \"proxy_url\":\"https://proxy.example.com/a.png\",\
                    \"height\":480,\"width\":640}";
    assert_eq!(image.to_json(), expected);
    let thumbnail = EmbedThumbnailBuilder::new()
        .set_url("https://example.com/a.png")
        .set_proxy_url("https://proxy.example.com/a.png")
        .set_height(480)
        .set_width(640)
        .build();
    assert_eq!(thumbnail.to_json(), expected);
    let video = EmbedVideoBuilder::new()
        .set_url("https://example.com/a.png")
        .set_proxy_url("https://proxy.example.com/a.png")
        .set_height(480)
        .set_width(640)
        .build();
    assert_eq!(video.to_json(), expected);
}

#[test]
fn dimensions_may_be_negative() {
    let video = EmbedVideoBuilder::new().set_width(-3).set_height(i32::MIN).build();
    assert_eq!(video.to_json(), "{\"height\":-2147483648,\"width\":-3}");
    let image = EmbedImageBuilder::new().set_width(i32::MAX).build();
    assert_eq!(image.to_json(), "{\"width\":2147483647}");
}

#[test]
fn a_provider_and_an_author() {
    let provider = EmbedProviderBuilder::new().set_name("ACME").build();
    assert_eq!(provider.to_json(), "{\"name\":\"ACME\"}");
    let provider = EmbedProviderBuilder::new().set_url("https://acme.example").build();
    assert_eq!(provider.to_json(), "{\"url\":\"https://acme.example\"}");
    let author = EmbedAuthorBuilder::new()
        .set_proxy_icon_url("p")
        .set_icon_url("i")
        .set_url("u")
        .set_name("n")
        .build();
    assert_eq!(
        author.to_json(),
        "{\"name\":\"n\",\"url\":\"u\",\"icon_url\":\"i\",\"proxy_icon_url\":\"p\"}"
    );
}

#[test]
fn a_field_always_has_name_and_value() {
    assert_eq!(EmbedFieldBuilder::new().build().to_json(), "{\"name\":\"\",\"value\":\"\"}");
    let field = EmbedFieldBuilder::new().set_name("Test").set_value("Value").build();
    assert_eq!(field.to_json(), "{\"name\":\"Test\",\"value\":\"Value\"}");
    let field =
        EmbedFieldBuilder::new().set_inline(false).set_name("Test").set_value("Value").build();
    assert_eq!(field.to_json(), "{\"name\":\"Test\",\"value\":\"Value\",\"inline\":false}");
}

#[test]
fn an_embed_always_says_that_it_is_rich() {
    assert_eq!(EMBED_TYPE, "rich");
    let embed = EmbedBuilder::new().build().unwrap();
    assert_eq!(embed.to_json(), "{\"type\":\"rich\"}");
    let embed = EmbedBuilder::new().set_title("t").set_description("d").build().unwrap();
    assert_eq!(embed.to_json(), "{\"title\":\"t\",\"type\":\"rich\",\"description\":\"d\"}");
}

#[test]
fn an_embed_with_everything() {
    let footer = EmbedFooterBuilder::new().set_text("f").build();
    let image = EmbedImageBuilder::new().set_url("i").build();
    let thumbnail = EmbedThumbnailBuilder::new().set_height(1).build();
    let video = EmbedVideoBuilder::new().set_width(2).build();
    let provider = EmbedProviderBuilder::new().set_name("p").build();
    let author = EmbedAuthorBuilder::new().set_name("a").build();
    let embed = EmbedBuilder::new()
        .set_title("t")
        .set_description("d")
        .set_url("u")
        .set_timestamp("2024-01-01T00:00:00Z")
        .set_color_hex("#ff0000")
        .set_footer(&footer)
        .set_image(&image)
        .set_thumbnail(&thumbnail)
        .set_video(&video)
        .set_provider(&provider)
        .set_author(&author)
        .set_fields(vec![
            EmbedFieldBuilder::new().set_name("k").set_value("v").set_inline(true).build(),
            EmbedFieldBuilder::new().set_name("k2").set_value("v2").build(),
        ])
        .build()
        .unwrap();
    assert_eq!(
        embed.to_json(),
        "{\"title\":\"t\",\"type\":\"rich\",\"description\":\"d\",\"url\":\"u\",\
         \"timestamp\":\"2024-01-01T00:00:00Z\",\"color\":16711680,\
         \"footer\":{\"text\":\"f\"},\"image\":{\"url\":\"i\"},\
         \"thumbnail\":{\"height\":1},\"video\":{\"width\":2},\
         \"provider\":{\"name\":\"p\"},\"author\":{\"name\":\"a\"},\
         \"fields\":[{\"name\":\"k\",\"value\":\"v\",\"inline\":true},\
         {\"name\":\"k2\",\"value\":\"v2\"}]}"
    );
}

#[test]
fn an_embed_written_by_hand_keeps_any_color() {
    let embed = Embed { color: Some(i64::MIN), ..Embed::default() };
    assert_eq!(embed.to_json(), "{\"type\":\"rich\",\"color\":-9223372036854775808}");
}

#[test]
fn no_fields_is_not_the_same_as_unset_fields() {
    let embed = EmbedBuilder::new().set_fields(Vec::new()).build().unwrap();
    assert_eq!(embed.to_json(), "{\"type\":\"rich\",\"fields\":[]}");
}

#[test]
fn mention_types_have_their_tokens() {
    assert_eq!(AllowedMentionType::RoleMention.wire_token(), "roles");
    assert_eq!(AllowedMentionType::UserMention.wire_token(), "users");
    assert_eq!(AllowedMentionType::EveryoneMention.wire_token(), "everyone");
}

#[test]
fn an_allowed_mention_always_has_its_four_members() {
    let mention = AllowedMentionBuilder::new().build().unwrap();
    assert_eq!(
        mention.to_json(),
        "{\"parse\":[],\"roles\":[],\"users\":[],\"replied_user\":false}"
    );
    let mention = AllowedMentionBuilder::new()
        .set_parse(vec![
            AllowedMentionType::EveryoneMention,
            AllowedMentionType::RoleMention,
            AllowedMentionType::UserMention,
            AllowedMentionType::RoleMention,
        ])
        .set_roles(vec!["1", "2"])
        .set_users(vec!["3"])
        .set_replied_user(true)
        .build()
        .unwrap();
    assert_eq!(
        mention.to_json(),
        "{\"parse\":[\"everyone\",\"roles\",\"users\",\"roles\"],\
         \"roles\":[\"1\",\"2\"],\"users\":[\"3\"],\"replied_user\":true}"
    );
}

#[test]
fn a_file_is_written_as_its_bytes() {
    let bytes = [1u8, 2, 3];
    let webhook = WebhookBuilder::new().set_file(&bytes).build().unwrap();
    assert_eq!(webhook.to_json(), "{\"file\":[1,2,3]}");
    let bytes = [0u8, 255];
    let webhook = WebhookBuilder::new().set_file(&bytes).set_tts(true).build().unwrap();
    assert_eq!(webhook.to_json(), "{\"tts\":true,\"file\":[0,255]}");
    let webhook = WebhookBuilder::new().set_file(&[]).build().unwrap();
    assert_eq!(webhook.to_json(), "{\"file\":[]}");
}

#[test]
fn a_message_with_everything_but_a_file() {
    let mention = AllowedMentionBuilder::new()
        .set_parse(vec![AllowedMentionType::UserMention])
        .build()
        .unwrap();
    let webhook = WebhookBuilder::new()
        .set_allowed_mentions(&mention)
        .set_tts(false)
        .set_avatar_url("https://example.com/a.png")
        .set_username("bot")
        .set_content("hi \"there\"")
        .build()
        .unwrap();
    assert_eq!(
        webhook.to_json(),
        "{\"content\":\"hi \\\"there\\\"\",\"username\":\"bot\",\
         \"avatar_url\":\"https://example.com/a.png\",\"tts\":false,\
         \"allowed_mentions\":{\"parse\":[\"users\"],\"roles\":[],\"users\":[],\
         \"replied_user\":false}}"
    );
}

#[test]
fn embeds_are_written_in_their_order() {
    let webhook = WebhookBuilder::new()
        .set_embeds(vec![
            EmbedBuilder::new().set_title("first").build().unwrap(),
            EmbedBuilder::new().set_title("second").set_color_decimal(255).build().unwrap(),
        ])
        .build()
        .unwrap();
    assert_eq!(
        webhook.to_json(),
        "{\"embeds\":[{\"title\":\"first\",\"type\":\"rich\"},\
         {\"title\":\"second\",\"type\":\"rich\",\"color\":255}]}"
    );
}

#[test]
fn what_is_written_is_what_a_json_reader_reads() {
    let footer = EmbedFooterBuilder::new().set_text("tab\there \\ \u{1} ✓").build();
    let webhook = WebhookBuilder::new()
        .set_embeds(vec![EmbedBuilder::new()
            .set_title("quo\"te")
            .set_color_hex("00ff00")
            .set_footer(&footer)
            .set_fields(vec![EmbedFieldBuilder::new()
                .set_name("n\n")
                .set_value("")
                .set_inline(true)
                .build()])
            .build()
            .unwrap()])
        .build()
        .unwrap();
    let parsed: serde_json::Value = serde_json::from_str(&webhook.to_json()).unwrap();
    let embed = &parsed["embeds"][0];
    assert_eq!(parsed.as_object().unwrap().len(), 1);
    assert_eq!(parsed["embeds"].as_array().unwrap().len(), 1);
    assert_eq!(embed.as_object().unwrap().len(), 5);
    assert_eq!(embed["title"].as_str(), Some("quo\"te"));
    assert_eq!(embed["type"].as_str(), Some("rich"));
    assert_eq!(embed["color"].as_i64(), Some(65280));
    assert_eq!(embed["footer"]["text"].as_str(), Some("tab\there \\ \u{1} ✓"));
    assert_eq!(embed["fields"][0]["name"].as_str(), Some("n\n"));
    assert_eq!(embed["fields"][0]["value"].as_str(), Some(""));
    assert_eq!(embed["fields"][0]["inline"].as_bool(), Some(true));
    assert_eq!(serde_json::to_string(&parsed).unwrap().len(), webhook.to_json().len());
}
