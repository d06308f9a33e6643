//! Callback signatures of outgoing messages, and the reply adapter, which
//! binds a result that answers an ancestor call to that ancestor.
use vstd::prelude::*;
use vstd::utf8::encode_utf8;
use crate::codec::{SecretMessage, FIELD_LEN};
use crate::crypto::{base64_encode, base64_of, AesKey};
use crate::encrypt::{encrypt_bytes, sealed};
use crate::framing::{append_bytes, bytes_match_at, copy_range, reply_params_view, reply_params_wf, ReplyParams};
use crate::output::{Coin, CosmosMsg, EnclaveError, RawWasmOutput, SubMsg, WasmMsg};
use crate::sign::{callback_signature, create_callback_signature, decimal, decimal_bytes};
use crate::text::{
    braces_close, braces_close_bytes, generic_err_open, generic_err_open_bytes, null, null_bytes, quote, quote_brace,
    quote_brace_bytes, quote_bytes, reply_error_open, reply_error_open_bytes, reply_flags_close,
    reply_flags_close_bytes, reply_id_open, reply_id_open_bytes, reply_ok_open, reply_ok_open_bytes,
    reply_result_open, reply_result_open_bytes,
};

verus! {

/// The result of a call as its ancestor's reply sees it.
pub enum ReplyResult {
    /// Success: no events, and the (encrypted) data, if any.
    Response { data: Option<Vec<u8>> },
    /// Failure: the encrypted error message, as the text inside its JSON
    /// string.
    Error { msg: Vec<u8> },
}

/// `new` is `old` with the callback signature set over `signed` and the
/// funds.
pub open spec fn wasm_msg_signed(old: WasmMsg, new: WasmMsg, secret: Seq<u8>, signed: Seq<u8>) -> bool {
    &&& new.action == old.action
    &&& new.code_hash == old.code_hash
    &&& new.msg == old.msg
    &&& new.funds == old.funds
    &&& new.callback_sig matches Some(sig)
    &&& sig@ == callback_signature(secret, signed, old.funds@)
}

/// Whether a message to another contract holds at least a nonce and a
/// public key.
pub open spec fn wasm_payload_framed(m: SubMsg) -> bool {
    match m.msg {
        CosmosMsg::Wasm(w) => w.msg@.len() >= 2 * FIELD_LEN,
        CosmosMsg::Other(_) => true,
    }
}

/// Whether every message to another contract in a list holds at least a
/// nonce and a public key.
pub open spec fn wasm_payloads_framed(msgs: Seq<SubMsg>) -> bool {
    forall|i: int| 0 <= i < msgs.len() ==> #[trigger] wasm_payload_framed(msgs[i])
}

/// A sub-message after signing: a message to another contract is signed
/// over its ciphertext (its payload past the nonce and public key).
pub open spec fn submsg_signed(old: SubMsg, new: SubMsg, secret: Seq<u8>) -> bool {
    &&& new.id == old.id
    &&& new.gas_limit == old.gas_limit
    &&& new.reply_on == old.reply_on
    &&& new.was_msg_encrypted == old.was_msg_encrypted
    &&& match old.msg {
        CosmosMsg::Wasm(w) => new.msg matches CosmosMsg::Wasm(nw) && wasm_msg_signed(
            w,
            nw,
            secret,
            w.msg@.subrange(2 * FIELD_LEN as int, w.msg@.len() as int),
        ),
        CosmosMsg::Other(_) => new.msg == old.msg,
    }
}

/// A sub-message after signing over its plaintext payload.
pub open spec fn submsg_signed_plain(old: SubMsg, new: SubMsg, secret: Seq<u8>) -> bool {
    &&& new.id == old.id
    &&& new.gas_limit == old.gas_limit
    &&& new.reply_on == old.reply_on
    &&& new.was_msg_encrypted == old.was_msg_encrypted
    &&& match old.msg {
        CosmosMsg::Wasm(w) => new.msg matches CosmosMsg::Wasm(nw) && wasm_msg_signed(w, nw, secret, w.msg@),
        CosmosMsg::Other(_) => new.msg == old.msg,
    }
}

pub open spec fn submsgs_signed(old: Seq<SubMsg>, new: Seq<SubMsg>, secret: Seq<u8>, plain: bool) -> bool {
    &&& new.len() == old.len()
    &&& forall|i: int|
        0 <= i < old.len() ==> if plain {
            submsg_signed_plain(old[i], #[trigger] new[i], secret)
        } else {
            submsg_signed(old[i], new[i], secret)
        }
}

/// `new` is `old` with the sub-messages signed, for the shapes that carry
/// sub-messages of the current schema; other shapes are unchanged.
pub open spec fn output_signed(old: RawWasmOutput, new: RawWasmOutput, secret: Seq<u8>, plain: bool) -> bool {
    match old {
        RawWasmOutput::OkV1 { ok, internal_reply_enclave_sig, internal_msg_id } => {
            &&& new matches RawWasmOutput::OkV1 { ok: nok, internal_reply_enclave_sig: ns, internal_msg_id: ni }
            &&& ns == internal_reply_enclave_sig
            &&& ni == internal_msg_id
            &&& nok.attributes == ok.attributes
            &&& nok.events == ok.events
            &&& nok.data == ok.data
            &&& submsgs_signed(ok.messages@, nok.messages@, secret, plain)
        },
        RawWasmOutput::OkIBCPacketReceive { ok } => {
            &&& new matches RawWasmOutput::OkIBCPacketReceive { ok: nok }
            &&& nok.acknowledgement == ok.acknowledgement
            &&& nok.attributes == ok.attributes
            &&& nok.events == ok.events
            &&& submsgs_signed(ok.messages@, nok.messages@, secret, plain)
        },
        _ => new == old,
    }
}

/// Whether the sub-messages of an output can be signed over their
/// ciphertext.
pub open spec fn output_payloads_framed(output: RawWasmOutput) -> bool {
    match output {
        RawWasmOutput::OkV1 { ok, .. } => wasm_payloads_framed(ok.messages@),
        RawWasmOutput::OkIBCPacketReceive { ok } => wasm_payloads_framed(ok.messages@),
        _ => true,
    }
}

/// A reply result as the spec functions see it.
pub enum ReplyOutcome {
    Response(Option<Seq<u8>>),
    Error(Seq<u8>),
}

/// The view of optional bytes.
pub open spec fn opt_bytes(d: Option<Vec<u8>>) -> Option<Seq<u8>> {
    match d {
        Some(v) => Some(v@),
        None => None,
    }
}

impl ReplyResult {
    pub open spec fn outcome(&self) -> ReplyOutcome {
        match self {
            ReplyResult::Response { data } => ReplyOutcome::Response(opt_bytes(*data)),
            ReplyResult::Error { msg } => ReplyOutcome::Error(msg@),
        }
    }
}

/// The JSON of a reply result: `{"ok":{"events":[],"data":...}}` or
/// `{"error":"<msg>"}`.
pub open spec fn reply_result_json(result: ReplyOutcome) -> Seq<u8> {
    match result {
        ReplyOutcome::Response(data) => reply_ok_open() + match data {
            Some(d) => quote() + encode_utf8(base64_of(d)) + quote(),
            None => null(),
        } + braces_close(),
        ReplyOutcome::Error(msg) => reply_error_open() + msg + quote_brace(),
    }
}

/// The JSON of the reply that the ancestor will process: the encrypted id,
/// the result, and the flags saying that the message was encrypted.
pub open spec fn reply_json(id: Seq<u8>, result: ReplyOutcome) -> Seq<u8> {
    reply_id_open() + encode_utf8(base64_of(id)) + reply_result_open() + reply_result_json(result)
        + reply_flags_close()
}

/// The encrypted id of the nearest ancestor's sub-message.
pub open spec fn encrypted_reply_id(key: Seq<u8>, ps: Seq<ReplyParams>, append_all: bool) -> Seq<u8> {
    sealed(key, decimal(ps[0].sub_msg_id as nat), Some(ps), append_all)
}

/// The message inside an encrypted error value
/// `{"generic_err":{"msg":"<msg>"}}`, if it has that form.
pub open spec fn generic_err_msg(err: Seq<u8>) -> Option<Seq<u8>> {
    let p = generic_err_open() + quote();
    let q = quote() + braces_close();
    if err.len() >= p.len() + q.len() && err.subrange(0, p.len() as int) == p && err.subrange(
        err.len() - q.len(),
        err.len() as int,
    ) == q {
        Some(err.subrange(p.len() as int, err.len() - q.len()))
    } else {
        None
    }
}

/// The reply information of a result: its encrypted id and the internal
/// signature over the reply JSON.
pub open spec fn reply_info_of(
    id: Seq<u8>,
    sig: Seq<u8>,
    result: ReplyOutcome,
    key: Seq<u8>,
    ps: Seq<ReplyParams>,
    secret: Seq<u8>,
    append_all: bool,
) -> bool {
    &&& id == encrypted_reply_id(key, ps, append_all)
    &&& sig == callback_signature(secret, reply_json(id, result), Seq::empty())
}

/// The output adapted for a reply to an ancestor call.
pub open spec fn output_adapted(
    old: RawWasmOutput,
    r: Result<RawWasmOutput, EnclaveError>,
    rp: Option<Seq<ReplyParams>>,
    key: Seq<u8>,
    secret: Seq<u8>,
) -> bool {
    match rp {
        None => r == Ok::<RawWasmOutput, EnclaveError>(old),
        Some(ps) => match old {
            RawWasmOutput::Error { err, .. } => match generic_err_msg(err@) {
                Some(m) => {
                    &&& r matches Ok(RawWasmOutput::Error { err: nerr, internal_msg_id: Some(id), internal_reply_enclave_sig: Some(sig) })
                    &&& nerr == err
                    &&& reply_info_of(id@, sig@, ReplyOutcome::Error(m), key, ps, secret, true)
                },
                None => r == Err::<RawWasmOutput, EnclaveError>(EnclaveError::FailedToDeserialize),
            },
            RawWasmOutput::OkV010 { ok, .. } => {
                &&& r matches Ok(RawWasmOutput::OkV010 { ok: nok, internal_msg_id: Some(id), internal_reply_enclave_sig: Some(sig) })
                &&& nok == ok
                &&& reply_info_of(id@, sig@, ReplyOutcome::Response(opt_bytes(ok.data)), key, ps, secret, false)
            },
            RawWasmOutput::OkV1 { ok, .. } => {
                &&& r matches Ok(RawWasmOutput::OkV1 { ok: nok, internal_msg_id: Some(id), internal_reply_enclave_sig: Some(sig) })
                &&& nok == ok
                &&& reply_info_of(id@, sig@, ReplyOutcome::Response(opt_bytes(ok.data)), key, ps, secret, true)
            },
            _ => r == Ok::<RawWasmOutput, EnclaveError>(old),
        },
    }
}

/// Sets the callback signature of a message to another contract, over the
/// given bytes and its funds.
pub fn sign_wasm_msg(wasm_msg: &mut WasmMsg, callback_secret: &[u8], signed: &[u8])
    ensures
        wasm_msg_signed(*old(wasm_msg), *final(wasm_msg), callback_secret@, signed@),
{
    wasm_msg.callback_sig = Some(create_callback_signature(callback_secret, signed, &wasm_msg.funds));
}

/// Sets the callback signature of a message to another contract over its
/// plaintext payload.
pub fn update_callback_sig(wasm_msg: &mut WasmMsg, callback_secret: &[u8])
    ensures
        wasm_msg_signed(*old(wasm_msg), *final(wasm_msg), callback_secret@, old(wasm_msg).msg@),
{
    let sig = create_callback_signature(callback_secret, wasm_msg.msg.as_slice(), &wasm_msg.funds);
    wasm_msg.callback_sig = Some(sig);
}

/// Signs every message to another contract in a list, over its ciphertext
/// or, when `plain`, over its whole payload. Fails when a payload is too
/// short to be a secret message.
pub fn sign_submsgs(messages: &mut Vec<SubMsg>, callback_secret: &[u8], plain: bool) -> (r: Result<(), EnclaveError>)
    ensures
        r is Ok <==> (plain || wasm_payloads_framed(old(messages)@)),
        r is Err ==> r == Err::<(), EnclaveError>(EnclaveError::FailedToDeserialize),
        r is Ok ==> submsgs_signed(old(messages)@, final(messages)@, callback_secret@, plain),
{
    let ghost before = messages@;
    let mut i: usize = 0;
    while i < messages.len()
        invariant
            i <= messages@.len(),
            messages@.len() == before.len(),
            forall|j: int|
                0 <= j < i ==> if plain {
                    submsg_signed_plain(before[j], #[trigger] messages@[j], callback_secret@)
                } else {
                    submsg_signed(before[j], messages@[j], callback_secret@)
                },
            forall|j: int| i <= j < messages@.len() ==> messages@[j] == before[j],
            !plain ==> forall|j: int| 0 <= j < i ==> #[trigger] wasm_payload_framed(before[j]),
            before == old(messages)@,
        decreases messages@.len() - i,
    {
        let sub_msg = &mut messages[i];
        match &mut sub_msg.msg {
            CosmosMsg::Wasm(w) => {
                if plain {
                    update_callback_sig(w, callback_secret);
                } else {
                    match SecretMessage::from_slice(w.msg.as_slice()) {
                        Ok(sm) => {
                            proof {
                                assert(sm.nonce@ + sm.user_public_key@ + sm.msg@ == w.msg@);
                                assert(sm.msg@ =~= w.msg@.subrange(2 * FIELD_LEN as int, w.msg@.len() as int));
                            }
                            sign_wasm_msg(w, callback_secret, sm.msg.as_slice());
                        },
                        Err(e) => {
                            assert(!wasm_payload_framed(before[i as int]));
                            return Err(e);
                        },
                    }
                }
            },
            CosmosMsg::Other(_) => {},
        }
        i = i + 1;
    }
    Ok(())
}

/// Signs the messages to other contracts of a result over their
/// ciphertext. Fails when a payload is too short to be a secret message.
pub fn create_callback_sig_for_submsgs(output: RawWasmOutput, callback_secret: &[u8]) -> (r: Result<RawWasmOutput, EnclaveError>)
    ensures
        r is Ok <==> output_payloads_framed(output),
        r is Err ==> r == Err::<RawWasmOutput, EnclaveError>(EnclaveError::FailedToDeserialize),
        r matches Ok(o) ==> output_signed(output, o, callback_secret@, false),
{
    let mut output = output;
    match &mut output {
        RawWasmOutput::OkV1 { ok, .. } => {
            sign_submsgs(&mut ok.messages, callback_secret, false)?;
        },
        RawWasmOutput::OkIBCPacketReceive { ok } => {
            sign_submsgs(&mut ok.messages, callback_secret, false)?;
        },
        _ => {},
    }
    Ok(output)
}

/// Signs the messages to other contracts of a plaintext result over their
/// whole payload.
pub fn manipulate_callback_sig_for_plaintext(output: RawWasmOutput, callback_secret: &[u8]) -> (r: RawWasmOutput)
    ensures
        output_signed(output, r, callback_secret@, true),
{
    let mut output = output;
    match &mut output {
        RawWasmOutput::OkV1 { ok, .. } => {
            let _ = sign_submsgs(&mut ok.messages, callback_secret, true);
        },
        RawWasmOutput::OkIBCPacketReceive { ok } => {
            let _ = sign_submsgs(&mut ok.messages, callback_secret, true);
        },
        _ => {},
    }
    output
}

/// A copy of optional bytes.
pub fn copy_data(d: &Option<Vec<u8>>) -> (r: Option<Vec<u8>>)
    ensures
        opt_bytes(r) == opt_bytes(*d),
{
    match d {
        Some(v) => Some(copy_range(v.as_slice(), 0, v.len())),
        None => None,
    }
}

/// The message inside an encrypted error value, if it has that form.
pub fn extract_generic_err_msg(err: &Vec<u8>) -> (r: Option<Vec<u8>>)
    ensures
        opt_bytes(r) == generic_err_msg(err@),
{
    let mut p = generic_err_open_bytes();
    let q0 = quote_bytes();
    append_bytes(&mut p, q0.as_slice());
    let mut q = quote_bytes();
    let b = braces_close_bytes();
    append_bytes(&mut q, b.as_slice());
    if err.len() < p.len() + q.len() {
        return None;
    }
    if !bytes_match_at(err.as_slice(), 0, p.as_slice()) {
        return None;
    }
    let tail = err.len() - q.len();
    if !bytes_match_at(err.as_slice(), tail, q.as_slice()) {
        return None;
    }
    Some(copy_range(err.as_slice(), p.len(), tail))
}

/// The JSON of a reply result.
pub fn reply_result_json_bytes(result: &ReplyResult) -> (r: Vec<u8>)
    ensures
        r@ == reply_result_json(result.outcome()),
{
    match result {
        ReplyResult::Response { data } => {
            let mut out = reply_ok_open_bytes();
            match data {
                Some(d) => {
                    let q = quote_bytes();
                    append_bytes(&mut out, q.as_slice());
                    let t = base64_encode(d.as_slice());
                    append_bytes(&mut out, t.as_str().as_bytes());
                    append_bytes(&mut out, q.as_slice());
                },
                None => {
                    let n = null_bytes();
                    append_bytes(&mut out, n.as_slice());
                },
            }
            let c = braces_close_bytes();
            append_bytes(&mut out, c.as_slice());
            out
        },
        ReplyResult::Error { msg } => {
            let mut out = reply_error_open_bytes();
            append_bytes(&mut out, msg.as_slice());
            let c = quote_brace_bytes();
            append_bytes(&mut out, c.as_slice());
            out
        },
    }
}

/// The JSON of the reply that the ancestor will process.
pub fn reply_json_bytes(id: &Vec<u8>, result: &ReplyResult) -> (r: Vec<u8>)
    ensures
        r@ == reply_json(id@, result.outcome()),
{
    let mut out = reply_id_open_bytes();
    let t = base64_encode(id.as_slice());
    append_bytes(&mut out, t.as_str().as_bytes());
    let m = reply_result_open_bytes();
    append_bytes(&mut out, m.as_slice());
    let j = reply_result_json_bytes(result);
    append_bytes(&mut out, j.as_slice());
    let f = reply_flags_close_bytes();
    append_bytes(&mut out, f.as_slice());
    out
}

/// The encrypted id of the nearest ancestor's sub-message, and the internal
/// signature over the reply JSON under the callback secret.
pub fn get_reply_info_for_output(
    output_result: ReplyResult,
    reply_params: &Option<Vec<ReplyParams>>,
    key: &AesKey,
    callback_secret: &[u8],
    should_append_all_reply_params: bool,
) -> (r: Result<(Vec<u8>, Vec<u8>), EnclaveError>)
    requires
        reply_params is Some,
        reply_params_wf(reply_params_view(reply_params)),
    ensures
        r matches Ok((id, sig)) && reply_info_of(
            id@,
            sig@,
            output_result.outcome(),
            key@,
            reply_params->0@,
            callback_secret@,
            should_append_all_reply_params,
        ),
{
    let ps = match reply_params {
        Some(v) => v,
        None => {
            return Err(EnclaveError::InternalError);
        },
    };
    let id_text = decimal_bytes(ps[0].sub_msg_id as u128);
    let id = encrypt_bytes(key, id_text.as_slice(), reply_params, should_append_all_reply_params)?;
    let reply = reply_json_bytes(&id, &output_result);
    let no_funds: Vec<Coin> = Vec::new();
    let sig = create_callback_signature(callback_secret, reply.as_slice(), &no_funds);
    proof {
        assert(no_funds@ =~= Seq::<Coin>::empty());
    }
    Ok((id, sig))
}

/// Adapts a result that answers an ancestor call: attaches the encrypted id
/// of the ancestor's sub-message and the internal signature that lets the
/// ancestor's reply entry point trust it. Results that answer no ancestor
/// are returned as they are.
///
/// The internal signature is made with the callback secret: the key context
/// exposes no other secret, and the reply entry point checks it against the
/// same one.
pub fn adapt_output_for_reply(
    output: RawWasmOutput,
    reply_params: &Option<Vec<ReplyParams>>,
    key: &AesKey,
    callback_secret: &[u8],
) -> (r: Result<RawWasmOutput, EnclaveError>)
    requires
        reply_params_wf(reply_params_view(reply_params)),
    ensures
        output_adapted(output, r, reply_params_view(reply_params), key@, callback_secret@),
{
    if reply_params.is_none() {
        return Ok(output);
    }
    let (output_result, should_append_reply_params) = match &output {
        RawWasmOutput::Error { err, .. } => match extract_generic_err_msg(err) {
            Some(m) => (ReplyResult::Error { msg: m }, true),
            None => {
                return Err(EnclaveError::FailedToDeserialize);
            },
        },
        RawWasmOutput::OkV010 { ok, .. } => (ReplyResult::Response { data: copy_data(&ok.data) }, false),
        RawWasmOutput::OkV1 { ok, .. } => (ReplyResult::Response { data: copy_data(&ok.data) }, true),
        _ => {
            return Ok(output);
        },
    };
    let (msg_id, sig) = get_reply_info_for_output(
        output_result,
        reply_params,
        key,
        callback_secret,
        should_append_reply_params,
    )?;
    let mut output = output;
    match &mut output {
        RawWasmOutput::Error { internal_msg_id, internal_reply_enclave_sig, .. } => {
            *internal_msg_id = Some(msg_id);
            *internal_reply_enclave_sig = Some(sig);
        },
        RawWasmOutput::OkV010 { internal_msg_id, internal_reply_enclave_sig, .. } => {
            *internal_msg_id = Some(msg_id);
            *internal_reply_enclave_sig = Some(sig);
        },
        RawWasmOutput::OkV1 { internal_msg_id, internal_reply_enclave_sig, .. } => {
            *internal_msg_id = Some(msg_id);
            *internal_reply_enclave_sig = Some(sig);
        },
        _ => {},
    }
    Ok(output)
}

} // verus!
