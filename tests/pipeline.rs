use secret_io::codec::SecretMessage;
use secret_io::encrypt::{decrypt_field, encrypt_output, encrypt_preserialized_string, trim_json_quotes};
use secret_io::envelope::{finalize_raw_output, set_all_logs_to_plaintext};
use secret_io::framing::ReplyParams;
use secret_io::headers::attach_reply_headers_to_submsgs;
use secret_io::output::{
    Coin, ContractResult, CosmosMsg, CosmosMsgV010, EnclaveError, Event, IbcChannelOpenResponse, IbcReceiveResponse,
    LogAttribute, RawWasmOutput, ReplyOn, Response, SubMsg, WasmAction, WasmMsg, WasmMsgV010,
};
use secret_io::pipeline::post_process_output;
use secret_io::reply::{adapt_output_for_reply, create_callback_sig_for_submsgs, manipulate_callback_sig_for_plaintext};
use secret_io::sign::{coins_to_json, create_callback_signature, decimal_bytes};

const KEY: [u8; 32] = [7u8; 32];
const SECRET: &[u8] = b"callback-secret";

fn secret_msg() -> SecretMessage {
    SecretMessage { nonce: [1u8; 32], user_public_key: [2u8; 32], msg: vec![] }
}

fn wasm_submsg(id: u64, reply_on: ReplyOn) -> SubMsg {
    SubMsg {
        id,
        msg: CosmosMsg::Wasm(WasmMsg {
            action: WasmAction::Execute { contract_addr: "secret1target".to_string() },
            code_hash: "a".repeat(64),
            msg: br#"{"ping":{}}"#.to_vec(),
            funds: vec![Coin { denom: "uscrt".to_string(), amount: 100 }],
            callback_sig: None,
        }),
        gas_limit: Some(1000),
        reply_on,
        was_msg_encrypted: false,
    }
}

fn bank_submsg() -> SubMsg {
    SubMsg {
        id: 9,
        msg: CosmosMsg::Other(br#"{"bank":{"send":{}}}"#.to_vec()),
        gas_limit: None,
        reply_on: ReplyOn::Never,
        was_msg_encrypted: false,
    }
}

fn attr(k: &str, v: &str, encrypted: bool) -> LogAttribute {
    LogAttribute { key: k.to_string(), value: v.to_string(), encrypted }
}

fn v1_output(data: Option<Vec<u8>>) -> RawWasmOutput {
    RawWasmOutput::OkV1 {
        ok: Response {
            messages: vec![wasm_submsg(5, ReplyOn::Always), bank_submsg()],
            attributes: vec![attr("k", "v", true), attr("open", "text", false)],
            events: vec![Event { ty: "transfer".to_string(), attributes: vec![attr("a", "b", true)] }],
            data,
        },
        internal_reply_enclave_sig: None,
        internal_msg_id: None,
    }
}

fn one_param() -> Option<Vec<ReplyParams>> {
    Some(vec![ReplyParams { recipient_contract_hash: vec![b'r'; 64], sub_msg_id: 3 }])
}

fn b64_of_generic_err(err: &[u8]) -> String {
    let text = std::str::from_utf8(err).unwrap();
    let prefix = r#"{"generic_err":{"msg":""#;
    assert!(text.starts_with(prefix) && text.ends_with(r#""}}"#));
    text[prefix.len()..text.len() - 3].to_string()
}

#[test]
fn encrypted_error_decrypts_to_hash_and_error() {
    let err = br#"{"generic_err":{"msg":"boom"}}"#.to_vec();
    let out = RawWasmOutput::Error { err: err.clone(), internal_msg_id: None, internal_reply_enclave_sig: None };
    let params = one_param();
    let enc = encrypt_output(out, &secret_msg(), &KEY, SECRET, &params, false).unwrap();
    let b64 = match enc {
        RawWasmOutput::Error { err, .. } => b64_of_generic_err(&err),
        _ => panic!("shape changed"),
    };
    let plain = decrypt_field(&KEY, &b64).unwrap();
    let mut expected = vec![b'r'; 64];
    expected.extend_from_slice(&err);
    assert_eq!(plain, expected);
    let value: serde_json::Value = serde_json::from_slice(&plain[64..]).unwrap();
    assert_eq!(value, serde_json::from_slice::<serde_json::Value>(&err).unwrap());
}

#[test]
fn encrypted_query_result_round_trips() {
    let out = RawWasmOutput::QueryOkV1 { ok: "eyJhIjoxfQ==".to_string() };
    let enc = encrypt_output(out, &secret_msg(), &KEY, SECRET, &None, false).unwrap();
    match enc {
        RawWasmOutput::QueryOkV1 { ok } => {
            assert_ne!(ok, "eyJhIjoxfQ==");
            assert_eq!(decrypt_field(&KEY, &ok).unwrap(), b"eyJhIjoxfQ==".to_vec());
        },
        _ => panic!("shape changed"),
    }
}

#[test]
fn encrypted_v1_output_keeps_plain_fields() {
    let enc = encrypt_output(v1_output(Some(b"hi".to_vec())), &secret_msg(), &KEY, SECRET, &None, false).unwrap();
    let ok = match enc {
        RawWasmOutput::OkV1 { ok, .. } => ok,
        _ => panic!("shape changed"),
    };
    // Marked attributes are encrypted, key and value separately.
    assert_eq!(decrypt_field(&KEY, &ok.attributes[0].key).unwrap(), b"k".to_vec());
    assert_eq!(decrypt_field(&KEY, &ok.attributes[0].value).unwrap(), b"v".to_vec());
    assert_eq!(decrypt_field(&KEY, &ok.events[0].attributes[0].value).unwrap(), b"b".to_vec());
    // Unmarked attributes and native messages stay as they were.
    assert_eq!(ok.attributes[1].key, "open");
    assert_eq!(ok.attributes[1].value, "text");
    match &ok.messages[1].msg {
        CosmosMsg::Other(m) => assert_eq!(m, &br#"{"bank":{"send":{}}}"#.to_vec()),
        _ => panic!("native message changed kind"),
    }
    // A message to another contract becomes nonce, public key, ciphertext.
    match &ok.messages[0].msg {
        CosmosMsg::Wasm(w) => {
            assert_eq!(&w.msg[..32], &[1u8; 32]);
            assert_eq!(&w.msg[32..64], &[2u8; 32]);
            let sm = SecretMessage::from_slice(&w.msg).unwrap();
            assert_eq!(sm.decrypt(&KEY).unwrap(), br#"{"ping":{}}"#.to_vec());
        },
        _ => panic!("wasm message changed kind"),
    }
    // Data is the ciphertext of its base64 text.
    let data = ok.data.unwrap();
    let sm = SecretMessage { nonce: [0; 32], user_public_key: [0; 32], msg: data };
    assert_eq!(sm.decrypt(&KEY).unwrap(), b"aGk=".to_vec());
}

#[test]
fn ibc_output_with_data_is_refused() {
    let r = encrypt_output(v1_output(Some(b"x".to_vec())), &secret_msg(), &KEY, SECRET, &None, true);
    assert!(matches!(r, Err(EnclaveError::InternalError)));
    let r = post_process_output(v1_output(Some(b"x".to_vec())), &secret_msg(), &KEY, SECRET, "h", &None, false, true);
    assert!(matches!(r, Err(EnclaveError::InternalError)));
}

#[test]
fn open_channel_is_not_encrypted_and_finalizes_to_empty_version() {
    let out = RawWasmOutput::OkIBCOpenChannel { ok: None };
    let enc = encrypt_output(out, &secret_msg(), &KEY, SECRET, &None, true).unwrap();
    let w = finalize_raw_output(enc, false, true, true);
    let ch = w.ibc_open_channel.unwrap();
    assert_eq!(ch.ok, Some(String::new()));
    assert!(ch.err.is_none());
    assert!(w.v010.is_none() && w.v1.is_none() && w.ibc_basic.is_none());
    assert!(w.ibc_packet_receive.is_none() && w.query.is_none());
    assert!(w.internal_msg_id.is_none() && w.internal_reply_enclave_sig.is_none());
}

#[test]
fn open_channel_keeps_its_version() {
    let out = RawWasmOutput::OkIBCOpenChannel { ok: Some(IbcChannelOpenResponse { version: "ics20-1".to_string() }) };
    let w = finalize_raw_output(out, false, true, true);
    assert_eq!(w.ibc_open_channel.unwrap().ok, Some("ics20-1".to_string()));
}

#[test]
fn finalize_wraps_plain_error_as_generic_error() {
    let out = RawWasmOutput::Error { err: br#""boom""#.to_vec(), internal_msg_id: None, internal_reply_enclave_sig: None };
    let w = finalize_raw_output(out, false, false, false);
    assert_eq!(w.v010.unwrap().err.unwrap(), br#"{"generic_err":{"msg":"boom"}}"#.to_vec());
}

#[test]
fn finalize_query_error_goes_to_query_slot() {
    let out = RawWasmOutput::Error { err: b"{}".to_vec(), internal_msg_id: None, internal_reply_enclave_sig: None };
    let w = finalize_raw_output(out, true, false, true);
    let q = w.query.unwrap();
    assert!(q.ok.is_none());
    assert_eq!(q.err.unwrap(), b"{}".to_vec());
    assert!(w.v010.is_none());
}

#[test]
fn finalize_v1_for_ibc_goes_to_basic_slot() {
    let w = finalize_raw_output(v1_output(None), false, true, true);
    let b = w.ibc_basic.unwrap().ok.unwrap();
    assert_eq!(b.messages.len(), 2);
    assert!(w.v1.is_none());
}

#[test]
fn headers_are_embedded_and_ids_cleared() {
    let out = attach_reply_headers_to_submsgs(v1_output(None), &"m".repeat(64), &one_param());
    let ok = match out {
        RawWasmOutput::OkV1 { ok, .. } => ok,
        _ => panic!("shape changed"),
    };
    assert_eq!(ok.messages[0].id, 0);
    assert!(ok.messages[0].was_msg_encrypted);
    assert_eq!(ok.messages[1].id, 9);
    assert!(ok.messages[1].was_msg_encrypted);
    let mut expected = b"a".repeat(64);
    expected.extend_from_slice(b"REPLY01");
    expected.extend_from_slice(&5u64.to_be_bytes());
    expected.extend(b"m".repeat(64));
    expected.extend_from_slice(b"REPLY01");
    expected.extend_from_slice(&3u64.to_be_bytes());
    expected.extend(vec![b'r'; 64]);
    expected.extend_from_slice(br#"{"ping":{}}"#);
    match &ok.messages[0].msg {
        CosmosMsg::Wasm(w) => assert_eq!(w.msg, expected),
        _ => panic!("wasm message changed kind"),
    }
}

#[test]
fn callback_signature_known_value() {
    let funds = vec![Coin { denom: "uscrt".to_string(), amount: 100 }];
    let sig = create_callback_signature(b"secret", b"msg", &funds);
    assert_eq!(hex::encode(sig), "a7e4feae6c960e41a47f4ccb6e5fae0734a5f0e2bb33a391a55d0fc6680ab914");
    let sig = create_callback_signature(b"k", b"abc", &vec![]);
    assert_eq!(hex::encode(sig), "b775b9b6890cf51d23120823c35aaf2da4d37019a751bdcfdfac93c93002fdd3");
}

#[test]
fn callback_signature_is_deterministic_and_input_sensitive() {
    let funds = vec![Coin { denom: "uscrt".to_string(), amount: 1 }];
    let a = create_callback_signature(b"s", b"m", &funds);
    assert_eq!(a, create_callback_signature(b"s", b"m", &funds));
    assert_ne!(a, create_callback_signature(b"t", b"m", &funds));
    assert_ne!(a, create_callback_signature(b"s", b"n", &funds));
    assert_ne!(a, create_callback_signature(b"s", b"m", &vec![Coin { denom: "uscrt".to_string(), amount: 2 }]));
}

#[test]
fn coins_json_matches_wire_form() {
    let funds = vec![
        Coin { denom: "uscrt".to_string(), amount: 100 },
        Coin { denom: "a\"b".to_string(), amount: u128::MAX },
    ];
    let expected = format!(r#"[{{"denom":"uscrt","amount":"100"}},{{"denom":"a\"b","amount":"{}"}}]"#, u128::MAX);
    assert_eq!(coins_to_json(&funds), expected.into_bytes());
    assert_eq!(coins_to_json(&vec![]), b"[]".to_vec());
}

#[test]
fn decimal_digits() {
    assert_eq!(decimal_bytes(0), b"0".to_vec());
    assert_eq!(decimal_bytes(9), b"9".to_vec());
    assert_eq!(decimal_bytes(10), b"10".to_vec());
    assert_eq!(decimal_bytes(1234567890), b"1234567890".to_vec());
}

#[test]
fn trim_quotes_of_serialised_string() {
    assert_eq!(trim_json_quotes(br#""abc""#), b"abc".to_vec());
    assert_eq!(trim_json_quotes(br#"{"a":"b"}"#), br#"{"a":"b"}"#.to_vec());
    assert_eq!(trim_json_quotes(br#""""#), Vec::<u8>::new());
}

#[test]
fn preserialized_string_is_base64_of_ciphertext() {
    let text = encrypt_preserialized_string(&KEY, b"hello", &None, false).unwrap();
    let raw = base64::decode(&text).unwrap();
    assert_eq!(raw.len(), 5 + 16);
    assert_eq!(decrypt_field(&KEY, &text).unwrap(), b"hello".to_vec());
}

#[test]
fn callback_sigs_are_over_ciphertext() {
    let enc = encrypt_output(v1_output(None), &secret_msg(), &KEY, SECRET, &None, false).unwrap();
    let signed = create_callback_sig_for_submsgs(enc, SECRET).unwrap();
    let ok = match signed {
        RawWasmOutput::OkV1 { ok, .. } => ok,
        _ => panic!("shape changed"),
    };
    match &ok.messages[0].msg {
        CosmosMsg::Wasm(w) => {
            let expected = create_callback_signature(SECRET, &w.msg[64..], &w.funds);
            assert_eq!(w.callback_sig.as_ref().unwrap(), &expected);
        },
        _ => panic!("wasm message changed kind"),
    }
}

#[test]
fn callback_sig_needs_a_secret_message() {
    let r = create_callback_sig_for_submsgs(v1_output(None), SECRET);
    assert!(matches!(r, Err(EnclaveError::FailedToDeserialize)));
}

#[test]
fn plaintext_callback_sigs_are_over_payload() {
    let signed = manipulate_callback_sig_for_plaintext(v1_output(None), SECRET);
    match signed {
        RawWasmOutput::OkV1 { ok, .. } => match &ok.messages[0].msg {
            CosmosMsg::Wasm(w) => {
                let expected = create_callback_signature(SECRET, br#"{"ping":{}}"#, &w.funds);
                assert_eq!(w.callback_sig.as_ref().unwrap(), &expected);
            },
            _ => panic!("wasm message changed kind"),
        },
        _ => panic!("shape changed"),
    }
}

#[test]
fn logs_set_to_plaintext() {
    let mut out = v1_output(None);
    set_all_logs_to_plaintext(&mut out);
    match out {
        RawWasmOutput::OkV1 { ok, .. } => {
            assert!(ok.attributes.iter().all(|a| !a.encrypted));
            assert!(ok.events[0].attributes.iter().all(|a| !a.encrypted));
            assert_eq!(ok.attributes[0].key, "k");
        },
        _ => panic!("shape changed"),
    }
}

#[test]
fn reply_adapter_attaches_id_and_signature() {
    let params = one_param();
    let out = RawWasmOutput::Error { err: br#"{"generic_err":{"msg":"boom"}}"#.to_vec(), internal_msg_id: None, internal_reply_enclave_sig: None };
    let enc = encrypt_output(out, &secret_msg(), &KEY, SECRET, &params, false).unwrap();
    let b64 = match &enc {
        RawWasmOutput::Error { err, .. } => b64_of_generic_err(err),
        _ => panic!("shape changed"),
    };
    let adapted = adapt_output_for_reply(enc, &params, &KEY, SECRET).unwrap();
    match adapted {
        RawWasmOutput::Error { internal_msg_id, internal_reply_enclave_sig, .. } => {
            let id = internal_msg_id.unwrap();
            let sm = SecretMessage { nonce: [0; 32], user_public_key: [0; 32], msg: id.clone() };
            let mut expected_id = vec![b'r'; 64];
            expected_id.extend_from_slice(b"3");
            assert_eq!(sm.decrypt(&KEY).unwrap(), expected_id);
            let reply = format!(
                r#"{{"id":"{}","result":{{"error":"{}"}},"was_orig_msg_encrypted":true,"is_encrypted":true}}"#,
                base64::encode(&id),
                b64
            );
            let expected_sig = create_callback_signature(SECRET, reply.as_bytes(), &vec![]);
            assert_eq!(internal_reply_enclave_sig.unwrap(), expected_sig);
        },
        _ => panic!("shape changed"),
    }
}

#[test]
fn reply_adapter_ignores_calls_without_ancestor() {
    let adapted = adapt_output_for_reply(v1_output(None), &None, &KEY, SECRET).unwrap();
    match adapted {
        RawWasmOutput::OkV1 { internal_msg_id, internal_reply_enclave_sig, .. } => {
            assert!(internal_msg_id.is_none() && internal_reply_enclave_sig.is_none());
        },
        _ => panic!("shape changed"),
    }
}

#[test]
fn full_pipeline_on_a_reply() {
    let w = post_process_output(v1_output(Some(b"d".to_vec())), &secret_msg(), &KEY, SECRET, &"m".repeat(64), &one_param(), false, false).unwrap();
    let v1 = w.v1.unwrap();
    assert!(v1.err.is_none());
    let ok = v1.ok.unwrap();
    assert_eq!(ok.messages[0].id, 0);
    match &ok.messages[0].msg {
        CosmosMsg::Wasm(w) => {
            assert!(w.callback_sig.is_some());
            let sm = SecretMessage::from_slice(&w.msg).unwrap();
            let plain = sm.decrypt(&KEY).unwrap();
            assert!(plain.starts_with(&b"a".repeat(64)));
            assert!(plain.ends_with(br#"{"ping":{}}"#));
        },
        _ => panic!("wasm message changed kind"),
    }
    assert!(w.internal_msg_id.is_some() && w.internal_reply_enclave_sig.is_some());
    assert!(w.v010.is_none() && w.ibc_basic.is_none() && w.query.is_none());
}

#[test]
fn secret_message_codec() {
    let sm = SecretMessage { nonce: [3; 32], user_public_key: [4; 32], msg: b"xyz".to_vec() };
    let bytes = sm.to_vec();
    assert_eq!(bytes.len(), 67);
    let back = SecretMessage::from_slice(&bytes).unwrap();
    assert_eq!(back.nonce, [3; 32]);
    assert_eq!(back.user_public_key, [4; 32]);
    assert_eq!(back.msg, b"xyz".to_vec());
    assert!(matches!(SecretMessage::from_slice(&bytes[..63]), Err(EnclaveError::FailedToDeserialize)));
}

#[test]
fn secret_message_encrypt_then_decrypt() {
    let mut sm = SecretMessage { nonce: [3; 32], user_public_key: [4; 32], msg: b"payload".to_vec() };
    sm.encrypt_in_place(&KEY).unwrap();
    assert_eq!(sm.msg.len(), 7 + 16);
    assert_ne!(&sm.msg[16..], b"payload");
    assert_eq!(sm.decrypt(&KEY).unwrap(), b"payload".to_vec());
    assert!(matches!(sm.decrypt(&[8u8; 32]), Err(EnclaveError::EncryptionError)));
}

#[test]
fn encrypted_legacy_output() {
    let out = RawWasmOutput::OkV010 {
        ok: ContractResult {
            messages: vec![
                CosmosMsgV010::Wasm(WasmMsgV010 {
                    action: WasmAction::Instantiate { code_id: 4, label: "l".to_string() },
                    callback_code_hash: "c".repeat(64),
                    msg: b"{}".to_vec(),
                    send: vec![],
                    callback_sig: None,
                }),
                CosmosMsgV010::Other(b"{\"staking\":{}}".to_vec()),
            ],
            log: vec![attr("x", "y", true), attr("p", "q", false)],
            data: None,
        },
        internal_reply_enclave_sig: None,
        internal_msg_id: None,
    };
    let enc = encrypt_output(out, &secret_msg(), &KEY, SECRET, &None, false).unwrap();
    let ok = match enc {
        RawWasmOutput::OkV010 { ok, .. } => ok,
        _ => panic!("shape changed"),
    };
    match &ok.messages[0] {
        CosmosMsgV010::Wasm(w) => {
            let sm = SecretMessage::from_slice(&w.msg).unwrap();
            let mut expected = b"c".repeat(64);
            expected.extend_from_slice(b"{}");
            assert_eq!(sm.decrypt(&KEY).unwrap(), expected);
            let sig = create_callback_signature(SECRET, &sm.msg, &vec![]);
            assert_eq!(w.callback_sig.as_ref().unwrap(), &sig);
        },
        _ => panic!("wasm message changed kind"),
    }
    match &ok.messages[1] {
        CosmosMsgV010::Other(m) => assert_eq!(m, &b"{\"staking\":{}}".to_vec()),
        _ => panic!("native message changed kind"),
    }
    assert_eq!(decrypt_field(&KEY, &ok.log[0].key).unwrap(), b"x".to_vec());
    assert_eq!(ok.log[1].value, "q");
    assert!(ok.data.is_none());
}

#[test]
fn encrypted_packet_receive_acknowledgement() {
    let out = RawWasmOutput::OkIBCPacketReceive {
        ok: IbcReceiveResponse { acknowledgement: b"ack".to_vec(), messages: vec![], attributes: vec![], events: vec![] },
    };
    let enc = encrypt_output(out, &secret_msg(), &KEY, SECRET, &one_param(), true).unwrap();
    match enc {
        RawWasmOutput::OkIBCPacketReceive { ok } => {
            let sm = SecretMessage { nonce: [0; 32], user_public_key: [0; 32], msg: ok.acknowledgement };
            let mut expected = vec![b'r'; 64];
            expected.extend_from_slice(b"YWNr");
            assert_eq!(sm.decrypt(&KEY).unwrap(), expected);
        },
        _ => panic!("shape changed"),
    }
}

#[test]
fn encrypted_legacy_query_result_escapes_quotes() {
    let out = RawWasmOutput::QueryOkV010 { ok: "a\"b".to_string() };
    let enc = encrypt_output(out, &secret_msg(), &KEY, SECRET, &None, false).unwrap();
    match enc {
        RawWasmOutput::QueryOkV010 { ok } => assert_eq!(decrypt_field(&KEY, &ok).unwrap(), br#"a\"b"#.to_vec()),
        _ => panic!("shape changed"),
    }
}

#[test]
fn query_result_ending_in_quote_round_trips() {
    let s = "ab\"";
    let out = RawWasmOutput::QueryOkV1 { ok: s.to_string() };
    let enc = encrypt_output(out, &secret_msg(), &KEY, SECRET, &None, false).unwrap();
    match enc {
        RawWasmOutput::QueryOkV1 { ok } => {
            let plain = decrypt_field(&KEY, &ok).unwrap();
            assert_eq!(plain, br#"ab\""#.to_vec());
            let quoted = format!("\"{}\"", String::from_utf8(plain).unwrap());
            assert_eq!(serde_json::from_str::<String>(&quoted).unwrap(), s);
        },
        _ => panic!("shape changed"),
    }
}

#[test]
fn query_result_control_characters_are_escaped() {
    let s = "a\n\u{1}\\";
    let out = RawWasmOutput::QueryOkV1 { ok: s.to_string() };
    let enc = encrypt_output(out, &secret_msg(), &KEY, SECRET, &None, false).unwrap();
    match enc {
        RawWasmOutput::QueryOkV1 { ok } => {
            assert_eq!(decrypt_field(&KEY, &ok).unwrap(), br#"a\n\u0001\\"#.to_vec());
        },
        _ => panic!("shape changed"),
    }
}
