//! The field encryptor: selective encryption of a result under the key
//! derived for the call.
//!
//! Errors, query results, payloads of messages to other contracts,
//! attributes marked encrypted, the optional `data` and an IBC
//! acknowledgement are encrypted; everything else stays as it was.
use vstd::prelude::*;
use vstd::utf8::encode_utf8;
use crate::codec::{secret_message_bytes, SecretMessage};
use crate::crypto::{
    json_escaped,
    base64_decode, base64_decoded, base64_encode, base64_of, json_string, json_string_of, siv_decrypt, siv_encrypt,
    siv_seal_of, AesKey,
};
use crate::framing::{append_bytes, copy_range, reply_params_view, reply_params_wf, reply_prefix, reply_prefix_spec, ReplyParams};
use crate::output::{
    CosmosMsg, CosmosMsgV010, EnclaveError, Event, LogAttribute, RawWasmOutput, SubMsg, WasmMsgV010,
};
use crate::sign::{callback_signature, create_callback_signature};
use crate::text::{braces_close, braces_close_bytes, generic_err_open, generic_err_open_bytes, quote, quote_bytes};

verus! {

/// `s` without its opening double quote, if it has one.
pub open spec fn trim_leading_quote(s: Seq<u8>) -> Seq<u8> {
    if s.len() > 0 && s[0] == 0x22u8 {
        s.drop_first()
    } else {
        s
    }
}

/// `s` without its closing double quote, if it has one.
pub open spec fn trim_trailing_quote(s: Seq<u8>) -> Seq<u8> {
    if s.len() > 0 && s.last() == 0x22u8 {
        s.drop_last()
    } else {
        s
    }
}

/// Serialised JSON with the delimiting quotes of a string value removed:
/// one at each end, so that escaped quotes inside are kept.
pub open spec fn trim_quotes(s: Seq<u8>) -> Seq<u8> {
    trim_trailing_quote(trim_leading_quote(s))
}

/// The ciphertext of `val` behind the reply prefix.
pub open spec fn sealed(key: Seq<u8>, val: Seq<u8>, reply_params: Option<Seq<ReplyParams>>, append_all: bool) -> Seq<u8> {
    siv_seal_of(key, reply_prefix_spec(reply_params, append_all) + val)
}

/// The base64 text of the ciphertext of `val` behind the reply prefix.
pub open spec fn sealed_text(key: Seq<u8>, val: Seq<u8>, reply_params: Option<Seq<ReplyParams>>, append_all: bool) -> Seq<char> {
    base64_of(sealed(key, val, reply_params, append_all))
}

/// The error value that stands for an encrypted error:
/// `{"generic_err":{"msg":"<base64 ciphertext>"}}`.
pub open spec fn generic_err_json(msg_text: Seq<char>) -> Seq<u8> {
    generic_err_open() + quote() + encode_utf8(msg_text) + quote() + braces_close()
}

/// An attribute after encryption: when marked, key and value are each
/// replaced by the base64 text of their ciphertext.
pub open spec fn attribute_encrypted(old: LogAttribute, new: LogAttribute, key: Seq<u8>) -> bool {
    if old.encrypted {
        &&& new.encrypted
        &&& new.key@ == sealed_text(key, encode_utf8(old.key@), None, false)
        &&& new.value@ == sealed_text(key, encode_utf8(old.value@), None, false)
    } else {
        new == old
    }
}

pub open spec fn attributes_encrypted(old: Seq<LogAttribute>, new: Seq<LogAttribute>, key: Seq<u8>) -> bool {
    &&& new.len() == old.len()
    &&& forall|i: int| 0 <= i < old.len() ==> #[trigger] attribute_encrypted(old[i], new[i], key)
}

pub open spec fn events_encrypted(old: Seq<Event>, new: Seq<Event>, key: Seq<u8>) -> bool {
    &&& new.len() == old.len()
    &&& forall|i: int|
        0 <= i < old.len() ==> {
            &&& (#[trigger] new[i]).ty == old[i].ty
            &&& attributes_encrypted(old[i].attributes@, new[i].attributes@, key)
        }
}

/// A sub-message after encryption: the payload of a message to another
/// contract becomes a secret message (nonce, public key, ciphertext); other
/// messages are kept in plaintext.
pub open spec fn submsg_encrypted(old: SubMsg, new: SubMsg, nonce: Seq<u8>, pk: Seq<u8>, key: Seq<u8>) -> bool {
    &&& new.id == old.id
    &&& new.gas_limit == old.gas_limit
    &&& new.reply_on == old.reply_on
    &&& new.was_msg_encrypted == old.was_msg_encrypted
    &&& match old.msg {
        CosmosMsg::Wasm(w) => {
            &&& new.msg matches CosmosMsg::Wasm(nw)
            &&& nw.action == w.action
            &&& nw.code_hash == w.code_hash
            &&& nw.funds == w.funds
            &&& nw.callback_sig == w.callback_sig
            &&& nw.msg@ == secret_message_bytes(nonce, pk, siv_seal_of(key, w.msg@))
        },
        CosmosMsg::Other(_) => new.msg == old.msg,
    }
}

pub open spec fn submsgs_encrypted(old: Seq<SubMsg>, new: Seq<SubMsg>, nonce: Seq<u8>, pk: Seq<u8>, key: Seq<u8>) -> bool {
    &&& new.len() == old.len()
    &&& forall|i: int| 0 <= i < old.len() ==> #[trigger] submsg_encrypted(old[i], new[i], nonce, pk, key)
}

/// A legacy message after encryption: the payload becomes a secret message
/// over the target's code hash followed by the payload, and is signed.
pub open spec fn v010_msg_encrypted(
    old: CosmosMsgV010,
    new: CosmosMsgV010,
    nonce: Seq<u8>,
    pk: Seq<u8>,
    key: Seq<u8>,
    secret: Seq<u8>,
) -> bool {
    match old {
        CosmosMsgV010::Wasm(w) => {
            let ct = siv_seal_of(key, encode_utf8(w.callback_code_hash@) + w.msg@);
            &&& new matches CosmosMsgV010::Wasm(nw)
            &&& nw.action == w.action
            &&& nw.callback_code_hash == w.callback_code_hash
            &&& nw.send == w.send
            &&& nw.msg@ == secret_message_bytes(nonce, pk, ct)
            &&& nw.callback_sig matches Some(sig)
            &&& sig@ == callback_signature(secret, ct, w.send@)
        },
        CosmosMsgV010::Other(_) => new == old,
    }
}

pub open spec fn v010_msgs_encrypted(
    old: Seq<CosmosMsgV010>,
    new: Seq<CosmosMsgV010>,
    nonce: Seq<u8>,
    pk: Seq<u8>,
    key: Seq<u8>,
    secret: Seq<u8>,
) -> bool {
    &&& new.len() == old.len()
    &&& forall|i: int| 0 <= i < old.len() ==> #[trigger] v010_msg_encrypted(old[i], new[i], nonce, pk, key, secret)
}

/// Optional data after encryption: the ciphertext of its base64 text behind
/// the reply prefix.
pub open spec fn data_encrypted(
    old: Option<Vec<u8>>,
    new: Option<Vec<u8>>,
    key: Seq<u8>,
    reply_params: Option<Seq<ReplyParams>>,
) -> bool {
    match old {
        Some(d) => new matches Some(nd) && nd@ == sealed(key, encode_utf8(base64_of(d@)), reply_params, false),
        None => new is None,
    }
}

/// The result of encrypting a raw output, field by field.
pub open spec fn output_encrypted(
    old: RawWasmOutput,
    r: Result<RawWasmOutput, EnclaveError>,
    nonce: Seq<u8>,
    pk: Seq<u8>,
    key: Seq<u8>,
    secret: Seq<u8>,
    rp: Option<Seq<ReplyParams>>,
    is_ibc_output: bool,
) -> bool {
    match old {
        RawWasmOutput::Error { err, internal_msg_id, internal_reply_enclave_sig } => {
            &&& r matches Ok(RawWasmOutput::Error { err: nerr, internal_msg_id: ni, internal_reply_enclave_sig: ns })
            &&& ni == internal_msg_id
            &&& ns == internal_reply_enclave_sig
            &&& nerr@ == generic_err_json(sealed_text(key, trim_quotes(err@), rp, false))
        },
        RawWasmOutput::QueryOkV010 { ok } => {
            &&& r matches Ok(RawWasmOutput::QueryOkV010 { ok: nok })
            &&& nok@ == sealed_text(key, trim_quotes(json_string_of(ok@)), rp, false)
        },
        RawWasmOutput::QueryOkV1 { ok } => {
            &&& r matches Ok(RawWasmOutput::QueryOkV1 { ok: nok })
            &&& nok@ == sealed_text(key, trim_quotes(json_string_of(ok@)), rp, false)
        },
        RawWasmOutput::OkV010 { ok, internal_reply_enclave_sig, internal_msg_id } => {
            &&& r matches Ok(RawWasmOutput::OkV010 { ok: nok, internal_reply_enclave_sig: ns, internal_msg_id: ni })
            &&& ni == internal_msg_id
            &&& ns == internal_reply_enclave_sig
            &&& v010_msgs_encrypted(ok.messages@, nok.messages@, nonce, pk, key, secret)
            &&& attributes_encrypted(ok.log@, nok.log@, key)
            &&& data_encrypted(ok.data, nok.data, key, rp)
        },
        RawWasmOutput::OkV1 { ok, internal_reply_enclave_sig, internal_msg_id } => {
            if is_ibc_output && ok.data is Some {
                r == Err::<RawWasmOutput, EnclaveError>(EnclaveError::InternalError)
            } else {
                &&& r matches Ok(RawWasmOutput::OkV1 { ok: nok, internal_reply_enclave_sig: ns, internal_msg_id: ni })
                &&& ni == internal_msg_id
                &&& ns == internal_reply_enclave_sig
                &&& submsgs_encrypted(ok.messages@, nok.messages@, nonce, pk, key)
                &&& attributes_encrypted(ok.attributes@, nok.attributes@, key)
                &&& events_encrypted(ok.events@, nok.events@, key)
                &&& data_encrypted(ok.data, nok.data, key, rp)
            }
        },
        RawWasmOutput::OkIBCPacketReceive { ok } => {
            &&& r matches Ok(RawWasmOutput::OkIBCPacketReceive { ok: nok })
            &&& submsgs_encrypted(ok.messages@, nok.messages@, nonce, pk, key)
            &&& attributes_encrypted(ok.attributes@, nok.attributes@, key)
            &&& events_encrypted(ok.events@, nok.events@, key)
            &&& nok.acknowledgement@ == sealed(key, encode_utf8(base64_of(ok.acknowledgement@)), rp, false)
        },
        RawWasmOutput::OkIBCOpenChannel { .. } => r == Ok::<RawWasmOutput, EnclaveError>(old),
    }
}

/// Removes the delimiting double quotes of serialised JSON: one at each
/// end.
pub fn trim_json_quotes(s: &[u8]) -> (r: Vec<u8>)
    ensures
        r@ == trim_quotes(s@),
{
    let from: usize = if s.len() > 0 && s[0] == 0x22u8 {
        1
    } else {
        0
    };
    let to: usize = if s.len() > from && s[s.len() - 1] == 0x22u8 {
        s.len() - 1
    } else {
        s.len()
    };
    proof {
        let t = trim_leading_quote(s@);
        assert(t =~= s@.subrange(from as int, s@.len() as int));
        if t.len() > 0 && t.last() == 0x22u8 {
            assert(t.drop_last() =~= s@.subrange(from as int, to as int));
        } else {
            assert(t =~= s@.subrange(from as int, to as int));
        }
    }
    copy_range(s, from, to)
}

/// The ciphertext of `val` behind the reply prefix.
pub fn encrypt_bytes(
    key: &AesKey,
    val: &[u8],
    reply_params: &Option<Vec<ReplyParams>>,
    should_append_all_reply_params: bool,
) -> (r: Result<Vec<u8>, EnclaveError>)
    requires
        reply_params_wf(reply_params_view(reply_params)),
    ensures
        r matches Ok(c) && c@ == sealed(key@, val@, reply_params_view(reply_params), should_append_all_reply_params),
{
    let mut plaintext = reply_prefix(reply_params, should_append_all_reply_params);
    append_bytes(&mut plaintext, val);
    match siv_encrypt(key, plaintext.as_slice()) {
        Some(c) => Ok(c),
        None => Err(EnclaveError::EncryptionError),
    }
}

/// The base64 text of the ciphertext of `val` behind the reply prefix.
pub fn encrypt_preserialized_string(
    key: &AesKey,
    val: &[u8],
    reply_params: &Option<Vec<ReplyParams>>,
    should_append_all_reply_params: bool,
) -> (r: Result<String, EnclaveError>)
    requires
        reply_params_wf(reply_params_view(reply_params)),
    ensures
        r matches Ok(s) && s@ == sealed_text(key@, val@, reply_params_view(reply_params), should_append_all_reply_params),
{
    let c = encrypt_bytes(key, val, reply_params, should_append_all_reply_params)?;
    Ok(base64_encode(c.as_slice()))
}

/// Encrypts a marked attribute's key and value; leaves others as they are.
pub fn encrypt_attribute(attr: &mut LogAttribute, key: &AesKey)
    ensures
        attribute_encrypted(*old(attr), *final(attr), key@),
{
    if attr.encrypted {
        let none: Option<Vec<ReplyParams>> = None;
        let k = encrypt_preserialized_string(key, attr.key.as_str().as_bytes(), &none, false);
        let v = encrypt_preserialized_string(key, attr.value.as_str().as_bytes(), &none, false);
        match (k, v) {
            (Ok(k), Ok(v)) => {
                attr.key = k;
                attr.value = v;
            },
            _ => {},
        }
    }
}

/// Encrypts the marked attributes of a list.
pub fn encrypt_attributes(attributes: &mut Vec<LogAttribute>, key: &AesKey)
    ensures
        attributes_encrypted(old(attributes)@, final(attributes)@, key@),
{
    let ghost before = attributes@;
    let mut i: usize = 0;
    while i < attributes.len()
        invariant
            i <= attributes@.len(),
            attributes@.len() == before.len(),
            forall|j: int| 0 <= j < i ==> #[trigger] attribute_encrypted(before[j], attributes@[j], key@),
            forall|j: int| i <= j < attributes@.len() ==> attributes@[j] == before[j],
        decreases attributes@.len() - i,
    {
        encrypt_attribute(&mut attributes[i], key);
        i = i + 1;
    }
}

/// Encrypts the marked attributes of every event.
pub fn encrypt_events(events: &mut Vec<Event>, key: &AesKey)
    ensures
        events_encrypted(old(events)@, final(events)@, key@),
{
    let ghost before = events@;
    let mut i: usize = 0;
    while i < events.len()
        invariant
            i <= events@.len(),
            events@.len() == before.len(),
            forall|j: int|
                0 <= j < i ==> {
                    &&& (#[trigger] events@[j]).ty == before[j].ty
                    &&& attributes_encrypted(before[j].attributes@, events@[j].attributes@, key@)
                },
            forall|j: int| i <= j < events@.len() ==> events@[j] == before[j],
        decreases events@.len() - i,
    {
        let ev = &mut events[i];
        encrypt_attributes(&mut ev.attributes, key);
        i = i + 1;
    }
}

/// Encrypts the payload of a message to another contract into a secret
/// message; other messages stay in plaintext.
pub fn encrypt_wasm_submsg(sub_msg: &mut SubMsg, secret_msg: &SecretMessage, key: &AesKey)
    ensures
        submsg_encrypted(*old(sub_msg), *final(sub_msg), secret_msg.nonce@, secret_msg.user_public_key@, key@),
{
    match &mut sub_msg.msg {
        CosmosMsg::Wasm(w) => {
            let mut msg_to_encrypt = SecretMessage {
                msg: w.msg.clone(),
                nonce: secret_msg.nonce,
                user_public_key: secret_msg.user_public_key,
            };
            assert(msg_to_encrypt.msg@ == w.msg@);
            if msg_to_encrypt.encrypt_in_place(key).is_ok() {
                w.msg = msg_to_encrypt.to_vec();
            }
        },
        CosmosMsg::Other(_) => {},
    }
}

/// Encrypts the sub-messages, attributes and events of a result.
pub fn encrypt_v1_non_result_fields(
    messages: &mut Vec<SubMsg>,
    attributes: &mut Vec<LogAttribute>,
    events: &mut Vec<Event>,
    secret_msg: &SecretMessage,
    key: &AesKey,
)
    ensures
        submsgs_encrypted(old(messages)@, final(messages)@, secret_msg.nonce@, secret_msg.user_public_key@, key@),
        attributes_encrypted(old(attributes)@, final(attributes)@, key@),
        events_encrypted(old(events)@, final(events)@, key@),
{
    let ghost before = messages@;
    let mut i: usize = 0;
    while i < messages.len()
        invariant
            i <= messages@.len(),
            messages@.len() == before.len(),
            forall|j: int|
                0 <= j < i ==> #[trigger] submsg_encrypted(
                    before[j],
                    messages@[j],
                    secret_msg.nonce@,
                    secret_msg.user_public_key@,
                    key@,
                ),
            forall|j: int| i <= j < messages@.len() ==> messages@[j] == before[j],
        decreases messages@.len() - i,
    {
        encrypt_wasm_submsg(&mut messages[i], secret_msg, key);
        i = i + 1;
    }
    encrypt_attributes(attributes, key);
    encrypt_events(events, key);
}

/// Encrypts a legacy message to another contract: the payload, behind the
/// target's code hash, becomes a secret message, which is then signed.
pub fn encrypt_v010_wasm_msg(
    wasm_msg: &mut WasmMsgV010,
    nonce: [u8; 32],
    user_public_key: [u8; 32],
    key: &AesKey,
    callback_secret: &[u8],
)
    ensures
        v010_msg_encrypted(
            CosmosMsgV010::Wasm(*old(wasm_msg)),
            CosmosMsgV010::Wasm(*final(wasm_msg)),
            nonce@,
            user_public_key@,
            key@,
            callback_secret@,
        ),
{
    let mut hash_appended_msg: Vec<u8> = Vec::new();
    append_bytes(&mut hash_appended_msg, wasm_msg.callback_code_hash.as_str().as_bytes());
    append_bytes(&mut hash_appended_msg, wasm_msg.msg.as_slice());
    let mut msg_to_pass = SecretMessage { nonce, user_public_key, msg: hash_appended_msg };
    if msg_to_pass.encrypt_in_place(key).is_ok() {
        wasm_msg.msg = msg_to_pass.to_vec();
        wasm_msg.callback_sig = Some(
            create_callback_signature(callback_secret, msg_to_pass.msg.as_slice(), &wasm_msg.send),
        );
    }
}

/// Encrypts every legacy message to another contract in a list.
pub fn encrypt_v010_msgs(
    messages: &mut Vec<CosmosMsgV010>,
    nonce: [u8; 32],
    user_public_key: [u8; 32],
    key: &AesKey,
    callback_secret: &[u8],
)
    ensures
        v010_msgs_encrypted(old(messages)@, final(messages)@, nonce@, user_public_key@, key@, callback_secret@),
{
    let ghost before = messages@;
    let mut i: usize = 0;
    while i < messages.len()
        invariant
            i <= messages@.len(),
            messages@.len() == before.len(),
            forall|j: int|
                0 <= j < i ==> #[trigger] v010_msg_encrypted(
                    before[j],
                    messages@[j],
                    nonce@,
                    user_public_key@,
                    key@,
                    callback_secret@,
                ),
            forall|j: int| i <= j < messages@.len() ==> messages@[j] == before[j],
        decreases messages@.len() - i,
    {
        match &mut messages[i] {
            CosmosMsgV010::Wasm(w) => {
                encrypt_v010_wasm_msg(w, nonce, user_public_key, key, callback_secret);
            },
            CosmosMsgV010::Other(_) => {},
        }
        i = i + 1;
    }
}

/// Encrypts optional data: the base64 text of the data, behind the reply
/// prefix.
pub fn encrypt_data(data: &mut Option<Vec<u8>>, key: &AesKey, reply_params: &Option<Vec<ReplyParams>>)
    requires
        reply_params_wf(reply_params_view(reply_params)),
    ensures
        data_encrypted(*old(data), *final(data), key@, reply_params_view(reply_params)),
{
    match data {
        Some(d) => {
            let text = base64_encode(d.as_slice());
            match encrypt_bytes(key, text.as_str().as_bytes(), reply_params, false) {
                Ok(c) => {
                    *d = c;
                },
                Err(_) => {},
            }
        },
        None => {},
    }
}

/// The error value that stands for an encrypted error.
pub fn generic_err_bytes(msg_text: &String) -> (r: Vec<u8>)
    ensures
        r@ == generic_err_json(msg_text@),
{
    let mut out = generic_err_open_bytes();
    let q = quote_bytes();
    append_bytes(&mut out, q.as_slice());
    append_bytes(&mut out, msg_text.as_str().as_bytes());
    append_bytes(&mut out, q.as_slice());
    let c = braces_close_bytes();
    append_bytes(&mut out, c.as_slice());
    out
}

/// Encrypts a query result: its JSON string, without the quotes, behind the
/// reply prefix.
pub fn encrypt_query_result(ok: &mut String, key: &AesKey, reply_params: &Option<Vec<ReplyParams>>)
    requires
        reply_params_wf(reply_params_view(reply_params)),
    ensures
        final(ok)@ == sealed_text(key@, trim_quotes(json_string_of(old(ok)@)), reply_params_view(reply_params), false),
{
    let serialized = json_string(ok.as_str());
    let trimmed = trim_json_quotes(serialized.as_slice());
    match encrypt_preserialized_string(key, trimmed.as_slice(), reply_params, false) {
        Ok(s) => {
            *ok = s;
        },
        Err(_) => {},
    }
}

/// Encrypts a raw output according to its shape. Fails only on a result of
/// the current schema that carries data when it answers an IBC call.
pub fn encrypt_output(
    output: RawWasmOutput,
    secret_msg: &SecretMessage,
    key: &AesKey,
    callback_secret: &[u8],
    reply_params: &Option<Vec<ReplyParams>>,
    is_ibc_output: bool,
) -> (r: Result<RawWasmOutput, EnclaveError>)
    requires
        reply_params_wf(reply_params_view(reply_params)),
    ensures
        output_encrypted(
            output,
            r,
            secret_msg.nonce@,
            secret_msg.user_public_key@,
            key@,
            callback_secret@,
            reply_params_view(reply_params),
            is_ibc_output,
        ),
{
    let mut output = output;
    match &mut output {
        RawWasmOutput::Error { err, .. } => {
            let trimmed = trim_json_quotes(err.as_slice());
            match encrypt_preserialized_string(key, trimmed.as_slice(), reply_params, false) {
                Ok(s) => {
                    *err = generic_err_bytes(&s);
                },
                Err(e) => {
                    return Err(e);
                },
            }
        },
        RawWasmOutput::QueryOkV010 { ok } => {
            encrypt_query_result(ok, key, reply_params);
        },
        RawWasmOutput::QueryOkV1 { ok } => {
            encrypt_query_result(ok, key, reply_params);
        },
        RawWasmOutput::OkV010 { ok, .. } => {
            encrypt_v010_msgs(
                &mut ok.messages,
                secret_msg.nonce,
                secret_msg.user_public_key,
                key,
                callback_secret,
            );
            encrypt_attributes(&mut ok.log, key);
            encrypt_data(&mut ok.data, key, reply_params);
        },
        RawWasmOutput::OkV1 { ok, .. } => {
            encrypt_v1_non_result_fields(
                &mut ok.messages,
                &mut ok.attributes,
                &mut ok.events,
                secret_msg,
                key,
            );
            if is_ibc_output && ok.data.is_some() {
                // An IBC result never carries data.
                return Err(EnclaveError::InternalError);
            }
            encrypt_data(&mut ok.data, key, reply_params);
        },
        RawWasmOutput::OkIBCPacketReceive { ok } => {
            encrypt_v1_non_result_fields(
                &mut ok.messages,
                &mut ok.attributes,
                &mut ok.events,
                secret_msg,
                key,
            );
            let text = base64_encode(ok.acknowledgement.as_slice());
            match encrypt_bytes(key, text.as_str().as_bytes(), reply_params, false) {
                Ok(c) => {
                    ok.acknowledgement = c;
                },
                Err(e) => {
                    return Err(e);
                },
            }
        },
        RawWasmOutput::OkIBCOpenChannel { .. } => {},
    }
    Ok(output)
}

/// Opens an encrypted field: decodes its base64 text and decrypts it under
/// `key`. A field sealed under the same key gives back exactly what was
/// sealed (reply prefix included).
pub fn decrypt_field(key: &AesKey, text: &str) -> (r: Result<Vec<u8>, EnclaveError>)
    ensures
        forall|p: Seq<u8>| text@ == base64_of(#[trigger] siv_seal_of(key@, p)) ==> (r matches Ok(v) && v@ == p),
        r matches Ok(v) ==> base64_decoded(encode_utf8(text@)) == Some(siv_seal_of(key@, v@)),
{
    let raw = match base64_decode(text.as_bytes()) {
        Some(c) => c,
        None => {
            return Err(EnclaveError::FailedToDeserialize);
        },
    };
    match siv_decrypt(key, raw.as_slice()) {
        Some(p) => Ok(p),
        None => Err(EnclaveError::EncryptionError),
    }
}

/// The plaintext sealed for a query result is exactly the escaped body of
/// the result's JSON string: quoting it again gives back that JSON string.
pub proof fn lemma_query_plaintext_is_escaped_text(text: Seq<char>)
    ensures
        trim_quotes(json_string_of(text)) == json_escaped(encode_utf8(text)),
        quote() + trim_quotes(json_string_of(text)) + quote() == json_string_of(text),
{
    let e = json_escaped(encode_utf8(text));
    let j = json_string_of(text);
    let q = seq![0x22u8];
    assert(j =~= q + e + q);
    assert(j.drop_first() =~= e + q);
    assert((e + q).drop_last() =~= e);
    assert(quote() =~= q);
    assert(quote() + e + quote() =~= j);
}

} // verus!
