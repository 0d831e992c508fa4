use slack_api::json::{Decode, DecodeError, JsonValue};
use slack_api::types::ChannelName;

#[test]
fn channel_name_keeps_its_text() {
    let name = ChannelName::decode("general").unwrap();
    assert_eq!(name.as_str(), "general");
    assert_eq!(name.to_string(), "general".to_string());
}

#[test]
fn channel_name_of_twenty_one_bytes_is_the_longest() {
    let text = "abcdefghijklmnopqrstu";
    assert_eq!(ChannelName::decode(text).unwrap().as_str(), text);
    assert_eq!(
        ChannelName::decode("abcdefghijklmnopqrstuv"),
        Err(DecodeError::TextTooLong { max_len: 21, value: "abcdefghijklmnopqrstuv".to_string() })
    );
}

#[test]
fn channel_name_from_a_value() {
    let v = JsonValue::Str("random".to_string());
    assert_eq!(<ChannelName as Decode>::decode(v).unwrap().as_str(), "random");
    assert!(matches!(
        <ChannelName as Decode>::decode(JsonValue::Null),
        Err(DecodeError::WrongType { .. })
    ));
}
