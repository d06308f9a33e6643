use secret_io::framing::{frame_payload, magic_bytes, reply_prefix, strip_reply_header, ReplyParams};

fn hash(c: u8) -> Vec<u8> {
    vec![c; 64]
}

fn header(id: u64, h: &[u8]) -> Vec<u8> {
    let mut v = b"REPLY01".to_vec();
    v.extend_from_slice(&id.to_be_bytes());
    v.extend_from_slice(h);
    v
}

#[test]
fn magic_is_reply01() {
    assert_eq!(magic_bytes(), b"REPLY01".to_vec());
}

#[test]
fn frame_payload_with_reply_and_ancestors() {
    let params = Some(vec![
        ReplyParams { recipient_contract_hash: hash(b'b'), sub_msg_id: 7 },
        ReplyParams { recipient_contract_hash: hash(b'c'), sub_msg_id: 8 },
    ]);
    let code_hash = hash(b'a');
    let me = hash(b'm');
    let msg = br#"{"x":1}"#;
    let framed = frame_payload(&code_hash, true, 42, &me, &params, msg);
    let mut expected = code_hash.clone();
    expected.extend(header(42, &me));
    expected.extend(header(7, &hash(b'b')));
    expected.extend(header(8, &hash(b'c')));
    expected.extend_from_slice(msg);
    assert_eq!(framed, expected);
}

#[test]
fn frame_payload_without_reply() {
    let code_hash = hash(b'a');
    let framed = frame_payload(&code_hash, false, 42, &hash(b'm'), &None, b"{}");
    let mut expected = code_hash.clone();
    expected.extend_from_slice(b"{}");
    assert_eq!(framed, expected);
}

#[test]
fn stripping_headers_one_at_a_time_recovers_the_chain() {
    let params = Some(vec![
        ReplyParams { recipient_contract_hash: hash(b'b'), sub_msg_id: 7 },
        ReplyParams { recipient_contract_hash: hash(b'c'), sub_msg_id: u64::MAX },
        ReplyParams { recipient_contract_hash: hash(b'd'), sub_msg_id: 0 },
    ]);
    let payload = br#"{"reply":{}}"#;
    let framed = frame_payload(&[], false, 0, &[], &params, payload);
    let mut rest = framed;
    let mut seen = vec![];
    while let Some((p, r)) = strip_reply_header(&rest) {
        assert!(serde_json::from_slice::<serde_json::Value>(&rest).is_err());
        seen.push((p.sub_msg_id, p.recipient_contract_hash));
        rest = r;
    }
    assert_eq!(seen, vec![(7, hash(b'b')), (u64::MAX, hash(b'c')), (0, hash(b'd'))]);
    assert_eq!(rest, payload.to_vec());
    assert!(serde_json::from_slice::<serde_json::Value>(&rest).is_ok());
}

#[test]
fn strip_reply_header_refuses_plain_json() {
    assert!(strip_reply_header(b"{\"a\":1}").is_none());
    assert!(strip_reply_header(b"REPLY01short").is_none());
}

#[test]
fn reply_prefix_nearest_only_or_all() {
    let params = Some(vec![
        ReplyParams { recipient_contract_hash: hash(b'b'), sub_msg_id: 7 },
        ReplyParams { recipient_contract_hash: hash(b'c'), sub_msg_id: 8 },
    ]);
    assert_eq!(reply_prefix(&params, false), hash(b'b'));
    let mut all = hash(b'b');
    all.extend(header(8, &hash(b'c')));
    assert_eq!(reply_prefix(&params, true), all);
    assert_eq!(reply_prefix(&None, true), Vec::<u8>::new());
}
