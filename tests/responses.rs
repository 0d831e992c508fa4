use slack_api::json::{Decode, DecodeError, JsonValue};
use slack_api::mods::channels::HistoryResponse;
use slack_api::mods::stars;
use slack_api::types::Message;

fn s(text: &str) -> JsonValue {
    JsonValue::Str(text.to_string())
}

fn obj(entries: Vec<(&str, JsonValue)>) -> JsonValue {
    JsonValue::Object(entries.into_iter().map(|(k, v)| (k.to_string(), v)).collect())
}

#[test]
fn history_response_decodes_its_messages() {
    let doc = obj(vec![
        ("ok", JsonValue::Bool(true)),
        ("has_more", JsonValue::Bool(false)),
        (
            "messages",
            JsonValue::Array(vec![
                obj(vec![("type", s("message")), ("text", s("a")), ("ts", s("1525306421.000207"))]),
                obj(vec![("type", s("message")), ("subtype", s("channel_join")), ("text", s("b"))]),
            ]),
        ),
    ]);
    let r = HistoryResponse::decode(doc).unwrap();
    assert_eq!(r.has_more, Some(false));
    assert_eq!(r.messages.len(), 2);
    assert!(matches!(r.messages[0], Message::Standard(_)));
    assert!(matches!(r.messages[1], Message::ChannelJoin(_)));
}

#[test]
fn history_response_with_undeclared_field_is_refused() {
    let doc = obj(vec![("ok", JsonValue::Bool(true)), ("messages", JsonValue::Array(vec![])), ("extra", JsonValue::Null)]);
    assert_eq!(
        HistoryResponse::decode(doc),
        Err(DecodeError::UnknownField { field: "extra".to_string() })
    );
}

#[test]
fn history_response_without_messages_is_missing_a_field() {
    let doc = obj(vec![("ok", JsonValue::Bool(true))]);
    assert_eq!(
        HistoryResponse::decode(doc),
        Err(DecodeError::MissingField { field: "messages".to_string() })
    );
}

#[test]
fn starred_channel_item_decodes_by_its_type() {
    let doc = obj(vec![("type", s("Channel")), ("channel", s("C1"))]);
    match stars::ListResponseItem::decode(doc) {
        Ok(stars::ListResponseItem::Channel { channel }) => assert_eq!(channel, "C1".to_string()),
        other => panic!("unexpected {:?}", other),
    }
}
