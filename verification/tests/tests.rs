use tumblr_api::json::DecodeError;
use tumblr_api::npf::{
    ContentBlock, ContentBlockImage, ContentBlockText, InlineFormat, InlineFormatType,
    MentionBlog, TextSubtype,
};
use tumblr_api::text::parse_json;

fn text_block(text: &str) -> ContentBlock {
    ContentBlock::Text(ContentBlockText {
        text: text.to_string(),
        subtype: None,
        indent_level: None,
        formatting: None,
    })
}

#[test]
fn content_block_text() {
    let wire = parse_json(r#"{"type": "text", "text": "Hello world!"}"#).unwrap();
    let decoded = ContentBlock::decode(&wire).unwrap();
    assert_eq!(decoded, text_block("Hello world!"));
    assert_eq!(decoded.encode().unwrap(), wire);

    let wire2 = parse_json(
        r#"{"type":"text", "text":"some bold indented text", "subtype": "indented", "indent_level": 1, "formatting":[{"start":5,"end":9,"type":"bold"}]}"#,
    )
    .unwrap();
    let expected2 = ContentBlock::Text(ContentBlockText {
        text: "some bold indented text".to_string(),
        subtype: Some(TextSubtype::Indented),
        indent_level: Some(1),
        formatting: Some(vec![InlineFormat { start: 5, end: 9, format: InlineFormatType::Bold }]),
    });
    assert_eq!(ContentBlock::decode(&wire2).unwrap(), expected2);
    assert_eq!(expected2.encode().unwrap(), wire2);
}

#[test]
fn content_block_attribution_empty_list() {
    let wire = parse_json(r#"{"type": "image", "media": [], "attribution": []}"#).unwrap();
    let expected = ContentBlock::Image(ContentBlockImage {
        media: vec![],
        colors: None,
        feedback_token: None,
        attribution: None,
        alt_text: None,
        caption: None,
        exif: None,
        clickthrough: None,
    });
    assert_eq!(ContentBlock::decode(&wire).unwrap(), expected);
}

#[test]
fn text_subtype() {
    let cases = [
        ("heading1", TextSubtype::Heading1),
        ("heading2", TextSubtype::Heading2),
        ("quirky", TextSubtype::Quirky),
        ("quote", TextSubtype::Quote),
        ("indented", TextSubtype::Indented),
        ("chat", TextSubtype::Chat),
        ("ordered-list-item", TextSubtype::OrderedListItem),
        ("unordered-list-item", TextSubtype::UnorderedListItem),
    ];
    for (wire, value) in cases {
        assert_eq!(TextSubtype::from_wire(wire), Some(value));
        assert_eq!(value.wire_name(), wire);
    }
}

#[test]
fn inline_format() {
    let cases = [
        (
            r#"{"type": "bold", "start": 5, "end": 9}"#,
            InlineFormat { start: 5, end: 9, format: InlineFormatType::Bold },
        ),
        (
            r#"{"type": "italic", "start": 14, "end": 20}"#,
            InlineFormat { start: 14, end: 20, format: InlineFormatType::Italic },
        ),
        (
            r#"{"type": "strikethrough", "start": 0, "end": 1}"#,
            InlineFormat { start: 0, end: 1, format: InlineFormatType::Strikethrough },
        ),
        (
            r#"{"type": "small", "start": 5, "end": 10}"#,
            InlineFormat { start: 5, end: 10, format: InlineFormatType::Small },
        ),
        (
            r#"{"type": "link", "start": 6, "end": 10, "url": "https://www.nasa.gov"}"#,
            InlineFormat {
                start: 6,
                end: 10,
                format: InlineFormatType::Link { url: "https://www.nasa.gov".to_string() },
            },
        ),
        (
            r#"{"start":13,"end":19,"type":"mention","blog":{"uuid":"t:123456abcdf","name":"david","url":"https://davidslog.com/"}}"#,
            InlineFormat {
                start: 13,
                end: 19,
                format: InlineFormatType::Mention {
                    blog: MentionBlog {
                        uuid: "t:123456abcdf".to_string(),
                        name: Some("david".to_string()),
                        url: Some("https://davidslog.com/".to_string()),
                    },
                },
            },
        ),
        (
            r##"{"start":10,"end":15,"type":"color","hex":"#ff492f"}"##,
            InlineFormat {
                start: 10,
                end: 15,
                format: InlineFormatType::Color { hex: "#ff492f".to_string() },
            },
        ),
    ];
    for (literal, expected) in cases {
        let wire = parse_json(literal).unwrap();
        assert_eq!(InlineFormat::decode(&wire).unwrap(), expected);
        assert_eq!(expected.encode(), wire);
    }
}

#[test]
fn reversed_span_is_refused() {
    let wire = parse_json(r#"{"type": "bold", "start": 9, "end": 5}"#).unwrap();
    assert_eq!(InlineFormat::decode(&wire), Err(DecodeError::ConstraintViolated));
}

#[test]
fn unknown_block_type_is_rejected() {
    let wire = parse_json(r#"{"type": "hologram", "text": "hi"}"#).unwrap();
    assert_eq!(ContentBlock::decode(&wire), Err(DecodeError::UnknownVariant));
}

#[test]
fn text_block_decode_errors() {
    let missing = parse_json(r#"{"type": "text"}"#).unwrap();
    assert_eq!(ContentBlock::decode(&missing), Err(DecodeError::MissingField));
    let wrong = parse_json(r#"{"type": "text", "text": 5}"#).unwrap();
    assert_eq!(ContentBlock::decode(&wrong), Err(DecodeError::TypeMismatch));
    let extra = parse_json(r#"{"type": "text", "text": "x", "surprise": 1}"#).unwrap();
    assert_eq!(ContentBlock::decode(&extra), Err(DecodeError::UnknownField));
    let no_tag = parse_json(r#"{"text": "x"}"#).unwrap();
    assert_eq!(ContentBlock::decode(&no_tag), Err(DecodeError::MissingField));
}

#[test]
fn attribution_absent_equals_empty_list() {
    let with_empty = parse_json(r#"{"type": "image", "media": [], "attribution": []}"#).unwrap();
    let without = parse_json(r#"{"type": "image", "media": []}"#).unwrap();
    assert_eq!(
        ContentBlock::decode(&with_empty).unwrap(),
        ContentBlock::decode(&without).unwrap()
    );
}

#[test]
fn audio_poster_single_or_list_of_one() {
    let bare = parse_json(r#"{"type": "audio", "poster": {"url": "https://a/p.png"}}"#).unwrap();
    let listed =
        parse_json(r#"{"type": "audio", "poster": [{"url": "https://a/p.png"}]}"#).unwrap();
    let b1 = ContentBlock::decode(&bare).unwrap();
    let b2 = ContentBlock::decode(&listed).unwrap();
    assert_eq!(b1, b2);
    let two = parse_json(
        r#"{"type": "audio", "poster": [{"url": "https://a/p.png"}, {"url": "https://a/q.png"}]}"#,
    )
    .unwrap();
    assert_eq!(ContentBlock::decode(&two), Err(DecodeError::ConstraintViolated));
}

#[test]
fn media_object_round_trips_with_nested_poster() {
    let wire = parse_json(
        r#"{"url": "https://a/img.gif", "type": "image/gif", "width": 540, "height": 405, "poster": {"url": "https://a/still.png", "width": 540, "height": 405}}"#,
    )
    .unwrap();
    let m = tumblr_api::npf::MediaObject::decode(&wire).unwrap();
    assert_eq!(m.url, "https://a/img.gif".to_string());
    assert_eq!(m.poster.as_ref().unwrap().url, "https://a/still.png".to_string());
    assert_eq!(m.encode(), wire);
}

#[test]
fn paywall_block_round_trips() {
    let wire = parse_json(r#"{"type": "paywall"}"#).unwrap();
    let b = ContentBlock::decode(&wire).unwrap();
    assert_eq!(b.encode().unwrap(), wire);
}

#[test]
fn oversized_alt_text_is_refused_at_encode() {
    let mut alt = String::new();
    for _ in 0..4097 {
        alt.push('a');
    }
    let block = ContentBlock::Image(ContentBlockImage {
        media: vec![],
        colors: None,
        feedback_token: None,
        attribution: None,
        alt_text: Some(alt),
        caption: None,
        exif: None,
        clickthrough: None,
    });
    assert_eq!(block.encode(), Err(tumblr_api::json::EncodeError::TextTooLong));
}

#[test]
fn decimal_rendering_is_exact() {
    assert_eq!(tumblr_api::json::u64_to_dec(0), "0".to_string());
    assert_eq!(tumblr_api::json::u64_to_dec(90210), "90210".to_string());
    assert_eq!(tumblr_api::json::i64_to_dec(-123), "-123".to_string());
    assert_eq!(
        tumblr_api::json::i64_to_dec(i64::MIN),
        "-9223372036854775808".to_string()
    );
    assert_eq!(tumblr_api::json::i64_to_dec(i64::MAX), "9223372036854775807".to_string());
}
