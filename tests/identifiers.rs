use slack_api::id::{ChannelId, ConversationId, DmId, GroupId, IdentifierError, TeamId, UserId};

#[test]
fn user_id_round_trips_its_text() {
    for text in ["U", "U1", "U9WDA1CGN", "UAJHFUB0C"] {
        let id = UserId::decode(text).unwrap();
        assert_eq!(id.as_str(), text);
        assert_eq!(id.to_string(), text.to_string());
    }
}

#[test]
fn channel_id_round_trips_its_text() {
    let id = ChannelId::decode("CAGMCM14K").unwrap();
    assert_eq!(id.as_str(), "CAGMCM14K");
}

#[test]
fn empty_identifier_has_invalid_length() {
    assert!(matches!(UserId::decode(""), Err(IdentifierError::InvalidLength { .. })));
}

#[test]
fn ten_byte_identifier_has_invalid_length() {
    assert!(matches!(UserId::decode("U123456789"), Err(IdentifierError::InvalidLength { .. })));
}

#[test]
fn long_identifier_with_wrong_prefix_reports_length_first() {
    assert!(matches!(UserId::decode("X1234567890"), Err(IdentifierError::InvalidLength { .. })));
}

#[test]
fn wrong_prefix_is_reported_with_expected_and_found() {
    match TeamId::decode("U12345") {
        Err(IdentifierError::InvalidPrefix { namespace, expected, found, value }) => {
            assert_eq!(namespace, "TeamId");
            assert_eq!(expected, b'T');
            assert_eq!(found, b'U');
            assert_eq!(value, "U12345".to_string());
        }
        other => panic!("unexpected {:?}", other),
    }
}

#[test]
fn equal_texts_give_equal_identifiers() {
    assert_eq!(UserId::decode("U42").unwrap(), UserId::decode("U42").unwrap());
    assert_ne!(UserId::decode("U42").unwrap(), UserId::decode("U43").unwrap());
}

#[test]
fn conversation_id_follows_the_prefix() {
    assert!(matches!(ConversationId::decode("C9VGPGBL4"), Ok(ConversationId::Channel(_))));
    assert!(matches!(ConversationId::decode("G9VGPGBL4"), Ok(ConversationId::Group(_))));
    assert!(matches!(ConversationId::decode("D9VGPGBL4"), Ok(ConversationId::DirectMessage(_))));
    assert_eq!(ConversationId::decode("D9VGPGBL4").unwrap().as_str(), "D9VGPGBL4");
}

#[test]
fn conversation_id_with_unknown_prefix_is_refused() {
    assert!(matches!(
        ConversationId::decode("U9VGPGBL4"),
        Err(IdentifierError::UnrecognizedConversationPrefix { .. })
    ));
    assert!(matches!(
        ConversationId::decode(""),
        Err(IdentifierError::UnrecognizedConversationPrefix { .. })
    ));
}

#[test]
fn conversation_id_with_known_prefix_keeps_length_rule() {
    assert!(matches!(
        ConversationId::decode("C1234567890"),
        Err(IdentifierError::InvalidLength { .. })
    ));
}

#[test]
fn conversation_id_from_each_member() {
    let c = ChannelId::decode("C1").unwrap();
    let g = GroupId::decode("G1").unwrap();
    let d = DmId::decode("D1").unwrap();
    assert_eq!(ConversationId::from(c), ConversationId::Channel(c));
    assert_eq!(ConversationId::from(g).to_string(), "G1".to_string());
    assert_eq!(ConversationId::from(d).as_str(), "D1");
}
