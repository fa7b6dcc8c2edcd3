use tumblr_api::api;
use tumblr_api::auth;
use tumblr_api::json::Json;
use tumblr_api::npf::{
    ContentBlock, ContentBlockImage, ContentBlockText, InlineFormat, InlineFormatType,
    MentionBlog, TextSubtype,
};
use tumblr_api::text::parse_json;

#[test]
fn tests_content_block_text() {
    let wire = parse_json(r#"{"type": "text", "text": "Hello world!"}"#).unwrap();
    let expected = ContentBlock::Text(ContentBlockText {
        text: "Hello world!".to_string(),
        subtype: None,
        indent_level: None,
        formatting: None,
    });
    assert_eq!(ContentBlock::decode(&wire).unwrap(), expected);
    assert_eq!(expected.encode().unwrap(), wire);

    let wire2 = parse_json(
        r#"{"type":"text", "text":"some bold indented text", "subtype": "indented", "indent_level": 1, "formatting":[{"start":5,"end":9,"type":"bold"}]}"#,
    )
    .unwrap();
    let expected2 = ContentBlock::Text(ContentBlockText {
        text: "some bold indented text".to_string(),
        subtype: Some(TextSubtype::Indented),
        indent_level: Some(1),
        formatting: Some(vec![InlineFormat { start: 5, end: 9, format: InlineFormatType::Bold }]),
    });
    assert_eq!(ContentBlock::decode(&wire2).unwrap(), expected2);
    assert_eq!(expected2.encode().unwrap(), wire2);
}

#[test]
fn tests_content_block_attribution_empty_list() {
    let wire = parse_json(r#"{"type": "image", "media": [], "attribution": []}"#).unwrap();
    let expected = ContentBlock::Image(ContentBlockImage {
        media: vec![],
        colors: None,
        feedback_token: None,
        attribution: None,
        alt_text: None,
        caption: None,
        exif: None,
        clickthrough: None,
    });
    assert_eq!(ContentBlock::decode(&wire).unwrap(), expected);
}

#[test]
fn tests_text_subtype() {
    assert_eq!(TextSubtype::from_wire("heading1"), Some(TextSubtype::Heading1));
    assert_eq!(TextSubtype::Heading1.wire_name(), "heading1");
    assert_eq!(TextSubtype::from_wire("heading2"), Some(TextSubtype::Heading2));
    assert_eq!(TextSubtype::Heading2.wire_name(), "heading2");
    assert_eq!(TextSubtype::from_wire("quirky"), Some(TextSubtype::Quirky));
    assert_eq!(TextSubtype::from_wire("quote"), Some(TextSubtype::Quote));
    assert_eq!(TextSubtype::from_wire("indented"), Some(TextSubtype::Indented));
    assert_eq!(TextSubtype::from_wire("chat"), Some(TextSubtype::Chat));
    assert_eq!(
        TextSubtype::from_wire("ordered-list-item"),
        Some(TextSubtype::OrderedListItem)
    );
    assert_eq!(
        TextSubtype::from_wire("unordered-list-item"),
        Some(TextSubtype::UnorderedListItem)
    );
    assert_eq!(TextSubtype::from_wire("shouting"), None);
}

#[test]
fn tests_inline_format() {
    let mention = parse_json(
        r#"{"start":13,"end":19,"type":"mention","blog":{"uuid":"t:123456abcdf","name":"david","url":"https://davidslog.com/"}}"#,
    )
    .unwrap();
    let expected = InlineFormat {
        start: 13,
        end: 19,
        format: InlineFormatType::Mention {
            blog: MentionBlog {
                uuid: "t:123456abcdf".to_string(),
                name: Some("david".to_string()),
                url: Some("https://davidslog.com/".to_string()),
            },
        },
    };
    assert_eq!(InlineFormat::decode(&mention).unwrap(), expected);
    assert_eq!(expected.encode(), mention);
}

#[test]
fn test_bearertoken_deserialize() {
    let wire = parse_json(r#""hello world""#).unwrap();
    let token = match wire {
        Json::Str(s) => auth::BearerToken::new(s),
        _ => panic!("BearerToken deserialize failed"),
    };
    let token_str: String = token.into();
    assert_eq!(token_str, "hello world".to_string());
}

#[test]
fn dual_id_fields_agree_and_integer_wins() {
    let mut b = tumblr_api::json::ObjBuilder::new();
    api::push_post_id(&mut b, 1234567891234567);
    let encoded = b.finish();
    let expected =
        parse_json(r#"{"id": 1234567891234567, "id_string": "1234567891234567"}"#).unwrap();
    assert_eq!(encoded, expected);

    let mismatched = parse_json(r#"{"id": 42, "id_string": "not even a number"}"#).unwrap();
    let entries = match mismatched {
        Json::Obj(entries) => entries,
        _ => panic!("not an object"),
    };
    assert_eq!(api::get_post_id(&entries), Ok(42));
}

#[test]
fn submission_sentinel_wins_over_siblings() {
    let off = parse_json(r#"{"is_submission": false, "post_author": "x"}"#).unwrap();
    let off_entries = match off {
        Json::Obj(entries) => entries,
        _ => panic!("not an object"),
    };
    assert_eq!(api::get_submission_info(&off_entries), Ok(None));

    let on = parse_json(r#"{"is_submission": true, "post_author": "x"}"#).unwrap();
    let on_entries = match on {
        Json::Obj(entries) => entries,
        _ => panic!("not an object"),
    };
    assert_eq!(
        api::get_submission_info(&on_entries),
        Ok(Some(api::SubmissionInfo {
            post_author: Some("x".to_string()),
            post_author_is_adult: None,
            anonymous_name: None,
            anonymous_email: None,
        }))
    );
}

#[test]
fn response_envelope_splits_success_from_failure() {
    let ok = parse_json(
        r#"{"meta": {"msg": "Created", "status": 201}, "response": {"id": "1234567891234567"}}"#,
    )
    .unwrap();
    let decoded = api::Response::decode(&ok).unwrap();
    let success = decoded.into_result().unwrap();
    assert_eq!(success.meta.status, 201);
    assert_eq!(success.meta.msg, "Created".to_string());

    let bad = parse_json(
        r#"{"meta": {"msg": "Bad Request", "status": 400}, "errors": [{"title": "nope", "code": 8001}]}"#,
    )
    .unwrap();
    let failure = api::Response::decode(&bad).unwrap().into_result().unwrap_err();
    assert_eq!(failure.meta.status, 400);
    assert_eq!(failure.errors.len(), 1);
    assert_eq!(failure.render(), " - (8001) nope".to_string());

    let empty = api::ResponseError {
        meta: api::ResponseMeta { status: 400, msg: "Bad Request".to_string() },
        errors: vec![],
    };
    assert_eq!(empty.render(), " (no details provided)".to_string());
}

#[test]
fn token_lifecycle_caches_until_expiry() {
    let mut c = auth::Credentials::new("key".to_string(), "SECRET-REDACTED".to_string());
    assert!(c.needs_exchange(0));
    let grant = parse_json(r#"{"access_token": "tok-1", "expires_in": 3600}"#).unwrap();
    let got = c
        .apply_exchange(100, auth::ExchangeOutcome::Response(grant))
        .unwrap();
    let got_str: String = got.into();
    assert_eq!(got_str, "tok-1".to_string());
    // within the validity window the cached token is reused, with no
    // second exchange owed
    assert!(!c.needs_exchange(101));
    assert!(!c.needs_exchange(3699));
    let cached: String = c.cached_token(3699).unwrap().into();
    assert_eq!(cached, "tok-1".to_string());
    // at the expiry instant the token no longer counts
    assert!(c.needs_exchange(3700));
    assert!(c.cached_token(3700).is_none());
}

#[test]
fn failed_exchange_keeps_prior_token() {
    let mut c = auth::Credentials::new("key".to_string(), "SECRET-REDACTED".to_string());
    let grant = parse_json(r#"{"access_token": "tok-1", "expires_in": 100}"#).unwrap();
    c.apply_exchange(0, auth::ExchangeOutcome::Response(grant)).unwrap();
    let rejection =
        parse_json(r#"{"error": "invalid_client", "error_description": "bad secret"}"#).unwrap();
    let err = match c.apply_exchange(50, auth::ExchangeOutcome::Response(rejection)) {
        Err(e) => e,
        Ok(_) => panic!("the rejection was taken for a grant"),
    };
    match err {
        auth::Error::OAuth { error, error_description, error_uri } => {
            assert_eq!(error, auth::OAuth2AuthErrorCode::InvalidClient);
            assert_eq!(error_description, Some("bad secret".to_string()));
            assert_eq!(error_uri, None);
        },
        other => panic!("unexpected error {:?}", other),
    }
    // the still-valid token survives the failed exchange
    let cached: String = c.cached_token(60).unwrap().into();
    assert_eq!(cached, "tok-1".to_string());
    // a transport failure surfaces as a network error and changes nothing
    let err2 = match c.apply_exchange(70, auth::ExchangeOutcome::NetworkFailure("dns".to_string()))
    {
        Err(e) => e,
        Ok(_) => panic!("the transport failure was taken for a grant"),
    };
    assert_eq!(err2, auth::Error::Network("dns".to_string()));
    assert!(!c.needs_exchange(80));
}

#[test]
fn unknown_oauth_code_is_kept() {
    let body = parse_json(r#"{"error": "computer_on_fire"}"#).unwrap();
    let decoded = auth::OAuth2AuthResponse::decode(&body).unwrap();
    match decoded {
        auth::OAuth2AuthResponse::Error { error, .. } => {
            assert_eq!(
                error,
                auth::OAuth2AuthErrorCode::Unknown("computer_on_fire".to_string())
            );
            assert_eq!(error.wire_name(), "computer_on_fire".to_string());
        },
        _ => panic!("unexpected response shape"),
    }
}

#[test]
fn token_request_form_is_fixed() {
    let c = auth::Credentials::new("ck".to_string(), "SECRET-REDACTED".to_string());
    let form = c.token_request_form();
    assert_eq!(form.len(), 4);
    assert_eq!(form[0].0, "grant_type".to_string());
    assert_eq!(form[0].1, "client_credentials".to_string());
    assert_eq!(form[1].0, "scope".to_string());
    assert_eq!(form[1].1, "basic offline_access write".to_string());
    assert_eq!(form[2].0, "client_id".to_string());
    assert_eq!(form[2].1, "ck".to_string());
    assert_eq!(form[3].0, "client_secret".to_string());
}

#[test]
fn create_post_request_encodes_split_state() {
    let req = tumblr_api::client::build_create_post_request(
        vec![ContentBlock::Text(ContentBlockText {
            text: "hello world".to_string(),
            subtype: None,
            indent_level: None,
            formatting: None,
        })],
        Some("tag_1,tag_2".to_string()),
        Some(tumblr_api::client::CreatePostState::Schedule {
            publish_on: "2026-01-01T00:00:00Z".to_string(),
        }),
        None,
    );
    assert_eq!(req.state, Some(api::CreatePostState::Queue));
    assert_eq!(req.publish_on, Some("2026-01-01T00:00:00Z".to_string()));
    let encoded = req.encode().unwrap();
    let expected = parse_json(
        r#"{"content": [{"text": "hello world", "type": "text"}], "publish_on": "2026-01-01T00:00:00Z", "state": "queue", "tags": "tag_1,tag_2"}"#,
    )
    .unwrap();
    assert_eq!(encoded, expected);
}

#[test]
fn source_and_ask_clusters_need_all_their_keys() {
    let partial = parse_json(r#"{"source_url": "https://s", "other": 1}"#).unwrap();
    let partial_entries = match partial {
        Json::Obj(entries) => entries,
        _ => panic!("not an object"),
    };
    assert_eq!(api::get_source_info(&partial_entries), Ok(None));

    let full = parse_json(r#"{"source_url": "https://s", "source_title": "S"}"#).unwrap();
    let full_entries = match full {
        Json::Obj(entries) => entries,
        _ => panic!("not an object"),
    };
    assert_eq!(
        api::get_source_info(&full_entries),
        Ok(Some(api::SourceInfo {
            source_url: "https://s".to_string(),
            source_title: "S".to_string(),
        }))
    );
}

fn sample_post_literal() -> &'static str {
    r#"{
        "blog_name": "staff", "id": 123, "id_string": "123",
        "post_url": "https://t.example/123", "type": "blocks",
        "timestamp": 1500000000, "date": "2017-07-14 02:40:00 GMT",
        "reblog_key": "abcDef12", "tags": ["a", "b"],
        "liked": false, "state": "published",
        "is_blocks_post_format": true, "original_type": "note",
        "blog": {"name": "staff", "title": "Staff", "description": "",
                 "url": "https://staff.example", "uuid": "t:abc",
                 "updated": 1500000000, "tumblrmart_accessories": {},
                 "can_show_badges": true},
        "is_blazed": false, "is_blaze_pending": false,
        "can_ignite": false, "can_blaze": false,
        "slug": "hello", "short_url": "https://tmblr.example/xyz",
        "summary": "Hello world!", "should_open_in_legacy": false,
        "recommended_source": null, "recommended_color": null,
        "followed": false, "note_count": 7,
        "content": [{"type": "text", "text": "Hello world!"}],
        "layout": [], "trail": [],
        "can_like": true, "interactability_reblog": "everyone",
        "can_reblog": true, "can_send_in_message": true, "can_reply": true,
        "display_avatar": true, "is_submission": false,
        "mystery_badge": {"kind": 7}
    }"#
}

#[test]
fn post_envelope_preserves_unmodeled_keys() {
    let wire = parse_json(sample_post_literal()).unwrap();
    let post = api::NPFPost::decode(&wire).unwrap();
    assert_eq!(post.blog_name, "staff".to_string());
    assert_eq!(post.id, 123);
    assert_eq!(post.state, api::PostState::Published);
    assert_eq!(post.source, None);
    assert_eq!(post.submission_info, None);
    assert_eq!(post.tags, vec!["a".to_string(), "b".to_string()]);
    assert_eq!(post.blog.name, "staff".to_string());
    assert_eq!(post.content.len(), 1);
    // the one key no modeled field reads survives in the overflow bag
    assert_eq!(post.other_fields.len(), 1);
    assert_eq!(post.other_fields[0].0, "mystery_badge".to_string());
}

#[test]
fn post_envelope_round_trips_through_encode() {
    let wire = parse_json(sample_post_literal()).unwrap();
    let post = api::NPFPost::decode(&wire).unwrap();
    let rewire = post.encode().unwrap();
    let again = api::NPFPost::decode(&rewire).unwrap();
    assert_eq!(again, post);
}

#[test]
fn post_envelope_rejects_overflow_collision() {
    let wire = parse_json(sample_post_literal()).unwrap();
    let mut post = api::NPFPost::decode(&wire).unwrap();
    // an overflow key colliding with a modeled field must not silently
    // overwrite either side
    post.other_fields.push(("state".to_string(), Json::Bool(true)));
    assert_eq!(post.encode(), Err(tumblr_api::json::EncodeError::KeyCollision));
}

#[test]
fn create_post_response_keeps_extra_fields() {
    let wire = parse_json(r#"{"id": "1234567891234567", "display_text": "ok"}"#).unwrap();
    let resp = api::CreatePostResponse::decode(&wire).unwrap();
    assert_eq!(resp.id, "1234567891234567".to_string());
    assert_eq!(resp.other_fields.len(), 1);
    assert_eq!(resp.other_fields[0].0, "display_text".to_string());
}

#[test]
fn limit_entry_reads_its_four_fields() {
    let wire = parse_json(
        r#"{"description": "posts per day", "limit": 250, "remaining": 140, "reset_at": 1500000000}"#,
    )
    .unwrap();
    let entry = api::LimitEntry::decode(&wire).unwrap();
    assert_eq!(entry.limit, 250);
    assert_eq!(entry.remaining, 140);
    assert_eq!(entry.reset_at, 1500000000);
}

#[test]
fn user_info_keeps_extra_fields() {
    let wire = parse_json(
        r#"{"user": {"following": 1, "default_post_format": "html", "name": "me", "likes": 2, "blogs": [], "extra": true}}"#,
    )
    .unwrap();
    let resp = api::UserInfoResponse::decode(&wire).unwrap();
    assert_eq!(resp.user.name, "me".to_string());
    assert_eq!(resp.user.blogs.len(), 0);
    assert_eq!(resp.user.other_fields.len(), 1);
    assert_eq!(resp.user.other_fields[0].0, "extra".to_string());
    assert_eq!(resp.other_fields.len(), 0);
}

#[test]
fn blog_info_reads_theme_and_tolerates_unknown_keys() {
    let wire = parse_json(
        r##"{"title": "Staff", "posts": 5, "name": "staff", "updated": 1500000000,
            "description": "", "ask": true, "ask_anon": false, "followed": false,
            "likes": null, "is_blocked_from_primary": false,
            "url": "https://staff.example",
            "theme": {"avatar_shape": "circle", "background_color": "#ffffff",
                      "body_font": "Helvetica Neue", "header_bounds": "",
                      "header_image": "https://a/h.png",
                      "header_image_npf": {"media": [{"url": "https://a/h.png"}]},
                      "header_image_focused": "https://a/hf.png",
                      "header_image_poster": "", "header_image_scaled": "https://a/hs.png",
                      "header_stretch": true, "link_color": "#529ecc",
                      "show_avatar": true, "show_description": true,
                      "show_header_image": true, "show_title": true,
                      "title_color": "#444444", "title_font": "Gibson",
                      "title_font_weight": "bold"},
            "extra_flag": true}"##,
    )
    .unwrap();
    let info = api::BlogInfoResponse::decode(&wire).unwrap();
    assert_eq!(info.name, "staff".to_string());
    assert_eq!(info.likes, None);
    assert_eq!(info.theme.avatar_shape, api::AvatarShape::Circle);
    assert_eq!(info.theme.header_image_npf.media.len(), 1);
    assert!(info.theme.header_stretch);
}

#[test]
fn full_blog_entity_is_closed_world() {
    let wire = parse_json(
        r#"{"name": "staff", "title": "Staff", "description": "",
            "url": "https://staff.example", "uuid": "t:abc", "updated": 1500000000,
            "tumblrmart_accessories": {}, "can_show_badges": true, "stray": 1}"#,
    )
    .unwrap();
    assert_eq!(
        api::Blog::decode(&wire),
        Err(tumblr_api::json::DecodeError::UnknownField)
    );
}

#[test]
fn duplicate_keys_take_the_last_binding() {
    let wire = parse_json(r#"{"type": "text", "text": "first", "text": "second"}"#).unwrap();
    let decoded = ContentBlock::decode(&wire).unwrap();
    match decoded {
        ContentBlock::Text(t) => assert_eq!(t.text, "second".to_string()),
        other => panic!("unexpected block {:?}", other),
    }
}

#[test]
fn parser_rejects_malformed_text() {
    assert_eq!(parse_json("{"), None);
    assert!(parse_json("[1, 2, 3]").is_some());
}
