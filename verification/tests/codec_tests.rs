use chat_view::codec::{decode, encode, DecodeError, Envelope};

#[test]
fn encode_register_exact() {
    let text = encode(&Envelope::Register { name: "alice".to_string() });
    assert_eq!(
        text,
        "{\"messageType\":\"register\",\"data\":\"alice\",\"dataArray\":null}"
    );
}

#[test]
fn encode_message_exact() {
    let text = encode(&Envelope::Message { payload: "hello".to_string() });
    assert_eq!(
        text,
        "{\"messageType\":\"message\",\"data\":\"hello\",\"dataArray\":null}"
    );
}

#[test]
fn encode_users_exact() {
    let text = encode(&Envelope::Users {
        names: vec!["a".to_string(), "b".to_string()],
    });
    assert_eq!(
        text,
        "{\"messageType\":\"users\",\"data\":null,\"dataArray\":[\"a\",\"b\"]}"
    );
}

#[test]
fn encode_users_empty() {
    let text = encode(&Envelope::Users { names: vec![] });
    assert_eq!(text, "{\"messageType\":\"users\",\"data\":null,\"dataArray\":[]}");
}

#[test]
fn encode_escapes_quotes_backslashes_and_controls() {
    let text = encode(&Envelope::Message {
        payload: "he said \"hi\\\"\n\t\u{1}".to_string(),
    });
    assert_eq!(
        text,
        "{\"messageType\":\"message\",\"data\":\"he said \\\"hi\\\\\\\"\\n\\t\\u0001\",\"dataArray\":null}"
    );
}

#[test]
fn decode_register() {
    let r = decode("{\"messageType\":\"register\",\"data\":\"bob\",\"dataArray\":null}");
    assert_eq!(r, Ok(Envelope::Register { name: "bob".to_string() }));
}

#[test]
fn decode_users_in_order() {
    let r = decode("{\"messageType\":\"users\",\"dataArray\":[\"x\",\"y\",\"z\"]}");
    assert_eq!(
        r,
        Ok(Envelope::Users {
            names: vec!["x".to_string(), "y".to_string(), "z".to_string()],
        })
    );
}

#[test]
fn decode_message_keeps_payload_verbatim() {
    let r = decode("{\"messageType\":\"message\",\"data\":\"  raw text \"}");
    assert_eq!(r, Ok(Envelope::Message { payload: "  raw text ".to_string() }));
}

#[test]
fn decode_malformed_text() {
    assert_eq!(decode("not json"), Err(DecodeError::Malformed));
    assert_eq!(decode(""), Err(DecodeError::Malformed));
}

#[test]
fn decode_unknown_kind() {
    assert_eq!(
        decode("{\"messageType\":\"frobnicate\",\"data\":\"x\"}"),
        Err(DecodeError::UnknownKind)
    );
    assert_eq!(decode("{\"data\":\"x\"}"), Err(DecodeError::UnknownKind));
    assert_eq!(
        decode("{\"messageType\":7,\"data\":\"x\"}"),
        Err(DecodeError::UnknownKind)
    );
}

#[test]
fn decode_missing_required_field() {
    assert_eq!(decode("{\"messageType\":\"users\"}"), Err(DecodeError::MissingField));
    assert_eq!(decode("{\"messageType\":\"message\"}"), Err(DecodeError::MissingField));
    assert_eq!(decode("{\"messageType\":\"register\"}"), Err(DecodeError::MissingField));
    assert_eq!(
        decode("{\"messageType\":\"users\",\"dataArray\":[\"a\",3]}"),
        Err(DecodeError::MissingField)
    );
}

#[test]
fn round_trip_all_kinds() {
    let samples = vec![
        Envelope::Register { name: "a b\"c".to_string() },
        Envelope::Message { payload: "line\nbreak".to_string() },
        Envelope::Users { names: vec!["n1".to_string(), "n2".to_string()] },
    ];
    for env in samples {
        assert_eq!(decode(&encode(&env)), Ok(env));
    }
}
