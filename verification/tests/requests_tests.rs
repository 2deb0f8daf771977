//! Request building: paging, paths, tokens, tools and streamed chunks.

use hume::common::auth::{
    access_token_from_response, access_token_request, access_token_url, AccessTokenResponse,
};
use hume::common::error::Error;
use hume::common::json::{from_bytes, from_text, to_text};
use hume::common::request::{item_path, part_path, version_path, RequestOptions};
use hume::common::response::PaginatedResponse;
use hume::common::text::{decimal_string, digit_str, parse_u64};
use hume::evi::models::{ChatStatus, MessageRole, PaginationDirection};
use hume::evi::tools::{CreateToolRequest, UpdateToolRequest};
use hume::tts::models::TtsStreamResponse;

#[test]
fn test_chat_status_serialization() {
    assert_eq!(serde_json::to_string(&ChatStatus::Active.to_json()).unwrap(), r#""active""#);
    assert_eq!(serde_json::to_string(&ChatStatus::Ended.to_json()).unwrap(), r#""ended""#);
    assert_eq!(
        serde_json::to_string(&ChatStatus::Interrupted.to_json()).unwrap(),
        r#""interrupted""#
    );
    assert_eq!(serde_json::to_string(&ChatStatus::Error.to_json()).unwrap(), r#""error""#);
}

#[test]
fn test_message_role_serialization() {
    assert_eq!(serde_json::to_string(&MessageRole::User.to_json()).unwrap(), r#""user""#);
    assert_eq!(serde_json::to_string(&MessageRole::Assistant.to_json()).unwrap(), r#""assistant""#);
    assert_eq!(serde_json::to_string(&MessageRole::System.to_json()).unwrap(), r#""system""#);
    assert_eq!(serde_json::to_string(&MessageRole::Tool.to_json()).unwrap(), r#""tool""#);
    assert_eq!(serde_json::to_string(&PaginationDirection::Asc.to_json()).unwrap(), r#""ASC""#);
    assert_eq!(serde_json::to_string(&PaginationDirection::Desc.to_json()).unwrap(), r#""DESC""#);
}

#[test]
fn test_create_tool_request_builder() {
    let schema: serde_json::Value = serde_json::from_str(
        r#"{"type":"object","properties":{"expression":{"type":"string"}}}"#,
    )
    .unwrap();
    let request = CreateToolRequest::builder("calculator", "Performs calculations")
        .parameters(schema)
        .required(true)
        .build();

    assert_eq!(request.name, "calculator");
    assert_eq!(request.description, "Performs calculations");
    assert_eq!(request.required, Some(true));
    assert_eq!(
        serde_json::to_string(&request.to_json()).unwrap(),
        r#"{"description":"Performs calculations","name":"calculator","parameters":{"properties":{"expression":{"type":"string"}},"type":"object"},"required":true}"#
    );

    let plain = CreateToolRequest::builder("t", "d").build();
    assert_eq!(plain.required, None);
    assert_eq!(
        serde_json::to_string(&plain.to_json()).unwrap(),
        r#"{"description":"d","name":"t","parameters":{}}"#
    );
    let update = UpdateToolRequest::default();
    assert!(update.name.is_none() && update.description.is_none());
    assert!(update.parameters.is_none() && update.required.is_none());
}

#[test]
fn paging_goes_into_the_query() {
    let options = RequestOptions::new().with_page(Some(2), Some(50)).with_ascending_order(Some(true));
    assert_eq!(options.query.get("page_number"), Some(&"2".to_string()));
    assert_eq!(options.query.get("page_size"), Some(&"50".to_string()));
    assert_eq!(options.query.get("ascending_order"), Some(&"true".to_string()));
    let options = RequestOptions::new().with_page(None, Some(0)).with_ascending_order(Some(false));
    assert_eq!(options.query.get("page_number"), None);
    assert_eq!(options.query.get("page_size"), Some(&"0".to_string()));
    assert_eq!(options.query.get("ascending_order"), Some(&"false".to_string()));
    let options = RequestOptions::new().with_window(Some(u32::MAX), None).with_ascending_order(None);
    assert_eq!(options.query.get("limit"), Some(&"4294967295".to_string()));
    assert_eq!(options.query.get("offset"), None);
    assert_eq!(options.query.len(), 1);
    let options = RequestOptions::new().with_number("n", Some(7)).with_flag("f", None);
    assert_eq!(options.query.to_vec(), vec![("n".to_string(), "7".to_string())]);
}

#[test]
fn paths_of_items_and_versions() {
    assert_eq!(item_path("/v0/evi/configs", "abc"), "/v0/evi/configs/abc");
    assert_eq!(part_path("/v0/evi/chats", "c1", "messages"), "/v0/evi/chats/c1/messages");
    assert_eq!(version_path("/v0/evi/prompts", "abc", "3"), "/v0/evi/prompts/abc/versions/3");
    assert_eq!(item_path("", ""), "/");
}

#[test]
fn pages_and_offsets() {
    let page = |offset, limit, has_more, next_cursor: Option<&str>| PaginatedResponse::<u8> {
        data: vec![],
        total: None,
        limit,
        offset,
        has_more,
        next_cursor: next_cursor.map(str::to_string),
    };
    assert!(page(None, None, Some(true), None).has_next_page());
    assert!(page(None, None, None, Some("c")).has_next_page());
    assert!(page(None, None, Some(false), Some("c")).has_next_page());
    assert!(!page(None, None, Some(false), None).has_next_page());
    assert!(!page(None, None, None, None).has_next_page());
    assert_eq!(page(Some(20), Some(10), Some(true), None).next_offset(), Some(30));
    assert_eq!(page(Some(20), Some(10), Some(false), None).next_offset(), None);
    assert_eq!(page(Some(20), None, Some(true), None).next_offset(), None);
    assert_eq!(page(None, Some(10), Some(true), None).next_offset(), None);
    assert_eq!(page(Some(u64::MAX), Some(1), Some(true), None).next_offset(), None);
    assert_eq!(page(Some(u64::MAX - 1), Some(1), Some(true), None).next_offset(), Some(u64::MAX));
}

#[test]
fn access_token_exchange() {
    assert_eq!(access_token_url("https://api.hume.ai"), "https://api.hume.ai/oauth2-cc/token");
    let request = access_token_request("key", "secret");
    assert_eq!(
        serde_json::to_string(&request.to_json()).unwrap(),
        r#"{"api_key":"key","secret_key":"secret"}"#
    );
    let body = r#"{"access_token":"tok","token_type":"Bearer","expires_in":1800}"#;
    let token = access_token_from_response(200, Some(body.to_string())).unwrap();
    assert_eq!(token.access_token, "tok");
    assert_eq!(token.token_type, "Bearer");
    assert_eq!(token.expires_in, 1800);
    assert!(!token.is_expired());

    for bad in [None, Some("nope"), Some(r#"{"access_token":"tok","token_type":"Bearer"}"#),
        Some(r#"{"access_token":"tok","token_type":"Bearer","expires_in":-1}"#),
        Some(r#"{"access_token":"tok","token_type":"Bearer","expires_in":"60"}"#)]
    {
        assert!(matches!(
            access_token_from_response(299, bad.map(str::to_string)),
            Err(Error::Json(_))
        ));
    }
    match access_token_from_response(401, Some("denied".to_string())) {
        Err(Error::Api { status, message, code, body }) => {
            assert_eq!(status, 401);
            assert_eq!(message, "Failed to generate access token");
            assert_eq!(code, None);
            assert_eq!(body, Some("denied".to_string()));
        }
        _ => panic!("expected an API error"),
    }
    assert!(matches!(access_token_from_response(199, Some(body.to_string())), Err(Error::Api { .. })));
    assert!(matches!(access_token_from_response(300, Some(body.to_string())), Err(Error::Api { .. })));
    let document = from_text(body).unwrap();
    let answer = AccessTokenResponse::from_json(&document).unwrap();
    assert_eq!(answer.expires_in, 1800);
}

#[test]
fn streamed_chunks_decode() {
    let chunk =
        TtsStreamResponse::decode(br#"{"index":2,"data":"AAEC","duration_ms":40,"is_final":false}"#)
            .unwrap();
    assert_eq!(chunk.index, 2);
    assert_eq!(chunk.data, "AAEC");
    assert_eq!(chunk.duration_ms, Some(40));
    assert!(!chunk.is_final);
    let last = TtsStreamResponse::decode(br#"{"index":3,"data":"","is_final":true}"#).unwrap();
    assert_eq!(last.duration_ms, None);
    assert!(last.is_final);
    for bad in [
        &b""[..],
        &b"\xff\xfe"[..],
        &br#"{"index":3,"data":""}"#[..],
        &br#"{"index":"3","data":"","is_final":true}"#[..],
        &br#"{"index":3,"data":"","is_final":true,"duration_ms":"x"}"#[..],
    ] {
        assert!(matches!(TtsStreamResponse::decode(bad), Err(Error::Json(_))));
    }
}

#[test]
fn text_helpers() {
    assert_eq!(decimal_string(0), "0");
    assert_eq!(decimal_string(9), "9");
    assert_eq!(decimal_string(10), "10");
    assert_eq!(decimal_string(1234567890), "1234567890");
    assert_eq!(decimal_string(u64::MAX), "18446744073709551615");
    assert_eq!(digit_str(0), "0");
    assert_eq!(digit_str(9), "9");
    assert_eq!(parse_u64("0"), Some(0));
    assert_eq!(parse_u64("007"), Some(7));
    assert_eq!(parse_u64("+42"), Some(42));
    assert_eq!(parse_u64("++42"), None);
    assert_eq!(parse_u64("4 2"), None);
    assert_eq!(parse_u64("٤"), None);
    assert_eq!(parse_u64("42"), "42".parse::<u64>().ok());
    for n in [0u64, 1, 99, 100, 65535, u64::MAX] {
        assert_eq!(parse_u64(&decimal_string(n)), Some(n));
        assert_eq!(decimal_string(n), n.to_string());
    }
    let document = from_bytes(br#"{"b":[1,true,null],"a":"x"}"#).unwrap();
    assert_eq!(to_text(&document), r#"{"a":"x","b":[1,true,null]}"#);
    assert!(from_text("{").is_err());
}
