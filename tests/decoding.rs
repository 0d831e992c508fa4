use slack_api::json::{Decode, DecodeError, JsonValue, TaggedUnionError};
use slack_api::tagged::{dispatch_tagged, TaggedPolicy};
use slack_api::types::{Event, Message, UserProfile};

fn json(text: &str) -> JsonValue {
    convert(serde_json::from_str(text).unwrap())
}

fn convert(v: serde_json::Value) -> JsonValue {
    match v {
        serde_json::Value::Null => JsonValue::Null,
        serde_json::Value::Bool(b) => JsonValue::Bool(b),
        serde_json::Value::Number(n) => {
            if let Some(u) = n.as_u64() {
                JsonValue::UInt(u)
            } else if let Some(i) = n.as_i64() {
                JsonValue::NegInt(i)
            } else {
                JsonValue::Fractional(n.to_string())
            }
        }
        serde_json::Value::String(s) => JsonValue::Str(s),
        serde_json::Value::Array(items) => JsonValue::Array(items.into_iter().map(convert).collect()),
        serde_json::Value::Object(map) => JsonValue::Object(map.into_iter().map(|(k, v)| (k, convert(v))).collect()),
    }
}

#[test]
fn test_user_profile_fields_empty_array_deserialize() {
    let user_profile = UserProfile::decode(json(r#"{"fields": []}"#)).unwrap();
    assert_eq!(0, user_profile.fields.unwrap().len());
}

#[test]
fn test_user_profile_fields_empty_map_deserialize() {
    let user_profile = UserProfile::decode(json(r#"{"fields": {}}"#)).unwrap();
    assert_eq!(0, user_profile.fields.unwrap().len());
}

#[test]
fn test_user_profile_fields_nonempty_map_deserialize() {
    let user_profile =
        UserProfile::decode(json(r#"{"fields": {"some_field": {"alt": "foo", "label": "bar"}}}"#)).unwrap();
    assert_eq!(1, user_profile.fields.unwrap().len());
}

#[test]
fn test_user_profile_fields_null_deserialize() {
    let user_profile = UserProfile::decode(json(r#"{"fields": null}"#)).unwrap();
    assert!(user_profile.fields.is_none());
}

#[test]
fn test_user_profile_fields_undefined_deserialize() {
    let user_profile = UserProfile::decode(json(r#"{}"#)).unwrap();
    assert!(user_profile.fields.is_none());
}

#[test]
fn user_profile_fields_nonempty_array_is_refused() {
    assert!(matches!(
        UserProfile::decode(json(r#"{"fields": [1]}"#)),
        Err(DecodeError::InvalidField { .. })
    ));
}

#[test]
fn message_without_subtype_is_standard() {
    let m = Message::decode_value(json(
        r#"{"type": "message", "text": "hi", "user": "U1", "channel": "C1234", "ts": "1525306421.000207"}"#,
    ));
    match m {
        Ok(Message::Standard(s)) => {
            assert_eq!(s.text, "hi".to_string());
            assert_eq!(s.channel.unwrap().as_str(), "C1234");
            assert_eq!(s.user.unwrap().as_str(), "U1");
            assert_eq!(s.ts.unwrap().microseconds(), 1525306421000207);
        }
        other => panic!("unexpected {:?}", other),
    }
}

#[test]
fn message_with_channel_join_subtype_is_channel_join() {
    let m = Message::decode_value(json(
        r#"{"type": "message", "subtype": "channel_join", "text": "joined", "user": "U1", "ts": "1.5"}"#,
    ));
    match m {
        Ok(Message::ChannelJoin(j)) => {
            assert_eq!(j.text, "joined".to_string());
            assert_eq!(j.ts.unwrap().microseconds(), 1_500_000);
            assert_eq!(j.user.unwrap().as_str(), "U1");
        }
        other => panic!("unexpected {:?}", other),
    }
}

#[test]
fn message_with_unknown_subtype_lists_the_known_ones() {
    let m = Message::decode_value(json(r#"{"subtype": "not_a_real_variant", "text": "x"}"#));
    match m {
        Err(TaggedUnionError::UnknownVariant { tag_value, known_variants }) => {
            assert_eq!(tag_value, JsonValue::Str("not_a_real_variant".to_string()));
            assert!(known_variants.contains(&"standard".to_string()));
            assert!(known_variants.contains(&"channel_join".to_string()));
            assert_eq!(known_variants.len(), Message::variant_names().len());
        }
        other => panic!("unexpected {:?}", other),
    }
}

#[test]
fn two_variant_union_names_exactly_its_variants() {
    let value = json(r#"{"subtype": "not_a_real_variant"}"#);
    let names = ["standard", "channel_join"];
    match dispatch_tagged(value, "Message", "subtype", &names, TaggedPolicy::DefaultVariant(0)) {
        Err(TaggedUnionError::UnknownVariant { known_variants, .. }) => {
            assert_eq!(known_variants, vec!["standard".to_string(), "channel_join".to_string()]);
        }
        other => panic!("unexpected {:?}", other),
    }
}

#[test]
fn channel_join_with_extra_field_fails_in_its_variant() {
    let m = Message::decode_value(json(
        r#"{"subtype": "channel_join", "text": "joined", "user": "U1", "unexpected": 1}"#,
    ));
    match m {
        Err(TaggedUnionError::VariantDecodeFailed { variant_name, inner_error }) => {
            assert_eq!(variant_name, "channel_join".to_string());
            assert_eq!(*inner_error, DecodeError::UnknownField { field: "unexpected".to_string() });
        }
        other => panic!("unexpected {:?}", other),
    }
}

#[test]
fn standard_message_with_bad_field_fails_in_its_variant() {
    let m = Message::decode_value(json(r#"{"text": "x", "user": "C1"}"#));
    assert!(matches!(
        m,
        Err(TaggedUnionError::VariantDecodeFailed { ref variant_name, .. }) if variant_name == "standard"
    ));
}

#[test]
fn decoding_twice_gives_equal_values() {
    let text = r#"{"type": "message", "text": "hi", "user": "U1", "ts": "1525306421.000207", "reactions": [{"name": "tada", "count": 2}]}"#;
    let a = Message::decode_value(json(text)).unwrap();
    let b = Message::decode_value(json(text)).unwrap();
    assert_eq!(a, b);
}

#[test]
fn dispatch_with_required_tag_strips_the_tag() {
    let value = json(r#"{"type": "b", "x": 1}"#);
    let d = dispatch_tagged(value, "U", "type", &["a", "b"], TaggedPolicy::RequiredTag).unwrap();
    assert_eq!(d.variant, 1);
    assert_eq!(d.payload, json(r#"{"x": 1}"#));
}

#[test]
fn dispatch_with_default_keeps_the_tag() {
    let value = json(r#"{"type": "b", "x": 1}"#);
    let d = dispatch_tagged(value, "U", "type", &["a", "b"], TaggedPolicy::DefaultVariant(0)).unwrap();
    assert_eq!(d.variant, 1);
    assert_eq!(d.payload, json(r#"{"type": "b", "x": 1}"#));
}

#[test]
fn event_without_type_is_missing_its_tag() {
    match Event::decode_value(json(r#"{"user": "U1"}"#)) {
        Err(TaggedUnionError::MissingTag { enum_name }) => assert_eq!(enum_name, "Event".to_string()),
        other => panic!("unexpected {:?}", other),
    }
}

#[test]
fn event_user_typing_decodes() {
    match Event::decode_value(json(r#"{"type": "user_typing", "channel": "C1", "user": "U2"}"#)) {
        Ok(Event::UserTyping(e)) => {
            assert_eq!(e.channel.as_str(), "C1");
            assert_eq!(e.user.as_str(), "U2");
        }
        other => panic!("unexpected {:?}", other),
    }
}

#[test]
fn event_with_message_inside_decodes_the_message() {
    match Event::decode_value(json(r#"{"type": "message", "subtype": "channel_join", "text": "j", "user": "U1"}"#)) {
        Ok(Event::Message(Message::ChannelJoin(j))) => assert_eq!(j.text, "j".to_string()),
        other => panic!("unexpected {:?}", other),
    }
}

#[test]
fn reaction_event_embeds_another_event() {
    let text = r#"{"type": "reaction_added", "user": "U1", "reaction": "tada", "item_user": "U2",
        "event_ts": "10.5", "ts": "10.5",
        "item": {"type": "user_typing", "channel": "C1", "user": "U3"}}"#;
    match Event::decode_value(json(text)) {
        Ok(Event::ReactionAdded(r)) => {
            assert_eq!(r.reaction, "tada".to_string());
            assert!(matches!(*r.item, Event::UserTyping(_)));
        }
        other => panic!("unexpected {:?}", other),
    }
}

#[test]
fn reaction_events_nested_too_deep_are_refused() {
    let mut text = r#"{"type": "hello"}"#.to_string();
    for _ in 0..10 {
        text = format!(
            r#"{{"type": "reaction_added", "user": "U1", "reaction": "r", "item_user": "U2", "event_ts": "1.0", "ts": "1.0", "item": {}}}"#,
            text
        );
    }
    assert!(matches!(
        Event::decode_value(json(&text)),
        Err(TaggedUnionError::VariantDecodeFailed { .. })
    ));
}

#[test]
fn client_message_id_reads_a_uuid() {
    let m = Message::decode_value(json(
        r#"{"text": "x", "client_msg_id": "67e55044-10b1-426f-9247-bb680e5fe0c8"}"#,
    ))
    .unwrap();
    match m {
        Message::Standard(s) => assert_eq!(s.client_msg_id, Some(0x67e5504410b1426f9247bb680e5fe0c8u128)),
        other => panic!("unexpected {:?}", other),
    }
}

#[test]
fn client_message_id_that_is_no_uuid_is_refused() {
    assert!(Message::decode_value(json(r#"{"text": "x", "client_msg_id": "nope"}"#)).is_err());
}

#[test]
fn missing_required_field_is_named() {
    match Event::decode_value(json(r#"{"type": "user_typing", "channel": "C1"}"#)) {
        Err(TaggedUnionError::VariantDecodeFailed { variant_name, inner_error }) => {
            assert_eq!(variant_name, "user_typing".to_string());
            assert_eq!(*inner_error, DecodeError::MissingField { field: "user".to_string() });
        }
        other => panic!("unexpected {:?}", other),
    }
}

#[test]
fn bad_identifier_inside_a_record_names_the_field() {
    match Event::decode_value(json(r#"{"type": "user_typing", "channel": "C1", "user": "X1"}"#)) {
        Err(TaggedUnionError::VariantDecodeFailed { inner_error, .. }) => match *inner_error {
            DecodeError::InvalidField { field, cause } => {
                assert_eq!(field, "user".to_string());
                assert!(matches!(*cause, DecodeError::Identifier(_)));
            }
            other => panic!("unexpected {:?}", other),
        },
        other => panic!("unexpected {:?}", other),
    }
}

#[test]
fn bad_timestamp_inside_a_record_names_the_field() {
    let m = Message::decode_value(json(r#"{"text": "x", "ts": "bad"}"#));
    match m {
        Err(TaggedUnionError::VariantDecodeFailed { inner_error, .. }) => match *inner_error {
            DecodeError::InvalidField { field, cause } => {
                assert_eq!(field, "ts".to_string());
                assert_eq!(
                    *cause,
                    DecodeError::Timestamp(slack_api::timestamp::TimestampError::MissingFractionalSeparator)
                );
            }
            other => panic!("unexpected {:?}", other),
        },
        other => panic!("unexpected {:?}", other),
    }
}

#[test]
fn record_from_a_non_object_has_the_wrong_type() {
    assert!(matches!(
        UserProfile::decode(JsonValue::Array(vec![])),
        Err(DecodeError::WrongType { .. })
    ));
}

#[test]
fn message_that_is_no_object_fails_as_standard() {
    assert!(matches!(
        Message::decode_value(JsonValue::Str("hello".to_string())),
        Err(TaggedUnionError::VariantDecodeFailed { ref variant_name, .. }) if variant_name == "standard"
    ));
}

#[test]
fn event_with_non_string_tag_is_unknown() {
    match Event::decode_value(json(r#"{"type": 5}"#)) {
        Err(TaggedUnionError::UnknownVariant { tag_value, known_variants }) => {
            assert_eq!(tag_value, JsonValue::UInt(5));
            assert_eq!(known_variants.len(), 15);
        }
        other => panic!("unexpected {:?}", other),
    }
}

#[test]
fn message_with_null_subtype_takes_the_default() {
    let value = json(r#"{"subtype": null, "x": 1}"#);
    let d = dispatch_tagged(value, "Message", "subtype", &["standard", "channel_join"], TaggedPolicy::DefaultVariant(0))
        .unwrap();
    assert_eq!(d.variant, 0);
}
