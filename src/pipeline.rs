//! The confidential output pipeline, stage after stage: header embedding,
//! field encryption, callback signing, reply adaptation, finalization.
use vstd::prelude::*;
use vstd::utf8::encode_utf8;
use crate::codec::{SecretMessage, FIELD_LEN};
use crate::crypto::AesKey;
use crate::encrypt::{encrypt_output, generic_err_json, output_encrypted, submsg_encrypted, submsgs_encrypted};
use crate::envelope::{finalize_raw_output, finalized, populated_shapes, WasmOutput};
use crate::framing::{reply_params_view, reply_params_wf, ReplyParams};
use crate::headers::{attach_reply_headers_to_submsgs, output_with_headers};
use crate::output::{EnclaveError, RawWasmOutput, SubMsg};
use crate::reply::{
    adapt_output_for_reply, create_callback_sig_for_submsgs, generic_err_msg, output_adapted,
    output_payloads_framed, output_signed, wasm_payload_framed, wasm_payloads_framed,
};
use crate::text::{braces_close, generic_err_open, quote};

verus! {

/// The stages that lead from a raw output to its envelope: `o1` has the
/// routing headers, `o2` is encrypted, `o3` signed, `o4` adapted for a reply,
/// and `w` is the envelope of `o4`.
pub open spec fn pipeline_stages(
    output: RawWasmOutput,
    o1: RawWasmOutput,
    o2: RawWasmOutput,
    o3: RawWasmOutput,
    o4: RawWasmOutput,
    w: WasmOutput,
    nonce: Seq<u8>,
    pk: Seq<u8>,
    key: Seq<u8>,
    secret: Seq<u8>,
    contract_hash: Seq<char>,
    rp: Option<Seq<ReplyParams>>,
    is_query_output: bool,
    is_ibc_output: bool,
) -> bool {
    &&& output_with_headers(output, o1, contract_hash, rp)
    &&& output_encrypted(o1, Ok(o2), nonce, pk, key, secret, rp, is_ibc_output)
    &&& output_signed(o2, o3, secret, false)
    &&& output_adapted(o3, Ok(o4), rp, key, secret)
    &&& finalized(o4, w, is_query_output, is_ibc_output, true)
}

/// Whether the pipeline refuses a raw output: a result of the current schema
/// that carries data when it answers an IBC call.
pub open spec fn refused_output(output: RawWasmOutput, is_ibc_output: bool) -> bool {
    output matches RawWasmOutput::OkV1 { ok, .. } && is_ibc_output && ok.data is Some
}

proof fn lemma_encrypted_submsgs_framed(old: Seq<SubMsg>, new: Seq<SubMsg>, nonce: Seq<u8>, pk: Seq<u8>, key: Seq<u8>)
    requires
        submsgs_encrypted(old, new, nonce, pk, key),
        nonce.len() == FIELD_LEN,
        pk.len() == FIELD_LEN,
    ensures
        wasm_payloads_framed(new),
{
    assert forall|i: int| 0 <= i < new.len() implies #[trigger] wasm_payload_framed(new[i]) by {
        assert(submsg_encrypted(old[i], new[i], nonce, pk, key));
    }
}

proof fn lemma_generic_err_msg_of_json(t: Seq<char>)
    ensures
        generic_err_msg(generic_err_json(t)) == Some(encode_utf8(t)),
{
    let e = generic_err_json(t);
    let p = generic_err_open() + quote();
    let q = quote() + braces_close();
    let u = encode_utf8(t);
    assert(e =~= p + u + q);
    assert(e.subrange(0, p.len() as int) =~= p);
    assert(e.subrange(e.len() - q.len(), e.len() as int) =~= q);
    assert(e.subrange(p.len() as int, e.len() - q.len()) =~= u);
}

/// Runs the pipeline on a raw output: embeds routing headers, encrypts under
/// the call's key, signs outgoing messages with the callback secret, adapts a
/// result that answers an ancestor call, and builds the envelope. Fails
/// exactly on a result of the current schema that carries data when it
/// answers an IBC call.
///
/// `callback_secret` signs both the outgoing messages and, for a reply, the
/// internal reply signature.
pub fn post_process_output(
    output: RawWasmOutput,
    secret_msg: &SecretMessage,
    key: &AesKey,
    callback_secret: &[u8],
    contract_hash: &str,
    reply_params: &Option<Vec<ReplyParams>>,
    is_query_output: bool,
    is_ibc_output: bool,
) -> (r: Result<WasmOutput, EnclaveError>)
    requires
        reply_params_wf(reply_params_view(reply_params)),
    ensures
        r is Err <==> refused_output(output, is_ibc_output),
        r is Err ==> r == Err::<WasmOutput, EnclaveError>(EnclaveError::InternalError),
        r matches Ok(w) ==> populated_shapes(w) == 1,
        r matches Ok(w) ==> exists|o1: RawWasmOutput, o2: RawWasmOutput, o3: RawWasmOutput, o4: RawWasmOutput|
            #[trigger] pipeline_stages(
                output,
                o1,
                o2,
                o3,
                o4,
                w,
                secret_msg.nonce@,
                secret_msg.user_public_key@,
                key@,
                callback_secret@,
                contract_hash@,
                reply_params_view(reply_params),
                is_query_output,
                is_ibc_output,
            ),
{
    let ghost rp = reply_params_view(reply_params);
    let ghost nonce = secret_msg.nonce@;
    let ghost pk = secret_msg.user_public_key@;
    let o1 = attach_reply_headers_to_submsgs(output, contract_hash, reply_params);
    let ghost g1 = o1;
    proof {
        assert(refused_output(output, is_ibc_output) == refused_output(o1, is_ibc_output));
    }
    let o2 = match encrypt_output(o1, secret_msg, key, callback_secret, reply_params, is_ibc_output) {
        Ok(o) => o,
        Err(e) => {
            return Err(e);
        },
    };
    let ghost g2 = o2;
    proof {
        match g1 {
            RawWasmOutput::OkV1 { ok, .. } => {
                if let RawWasmOutput::OkV1 { ok: nok, .. } = g2 {
                    lemma_encrypted_submsgs_framed(ok.messages@, nok.messages@, nonce, pk, key@);
                }
            },
            RawWasmOutput::OkIBCPacketReceive { ok } => {
                if let RawWasmOutput::OkIBCPacketReceive { ok: nok } = g2 {
                    lemma_encrypted_submsgs_framed(ok.messages@, nok.messages@, nonce, pk, key@);
                }
            },
            _ => {},
        }
        assert(output_payloads_framed(g2));
    }
    let o3 = match create_callback_sig_for_submsgs(o2, callback_secret) {
        Ok(o) => o,
        Err(e) => {
            return Err(e);
        },
    };
    let ghost g3 = o3;
    proof {
        if let RawWasmOutput::Error { err, .. } = g1 {
            if let RawWasmOutput::Error { err: nerr, .. } = g2 {
                let t = choose|t: Seq<char>| nerr@ == generic_err_json(t);
                lemma_generic_err_msg_of_json(t);
            }
        }
    }
    let o4 = match adapt_output_for_reply(o3, reply_params, key, callback_secret) {
        Ok(o) => o,
        Err(e) => {
            return Err(e);
        },
    };
    let ghost g4 = o4;
    let w = finalize_raw_output(o4, is_query_output, is_ibc_output, true);
    proof {
        assert(pipeline_stages(
            output,
            g1,
            g2,
            g3,
            g4,
            w,
            nonce,
            pk,
            key@,
            callback_secret@,
            contract_hash@,
            rp,
            is_query_output,
            is_ibc_output,
        ));
    }
    Ok(w)
}

} // verus!
