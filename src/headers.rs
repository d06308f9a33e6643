//! Reply header embedding: every outgoing message to another contract gets
//! its routing headers placed ahead of its payload, and its id is cleared.
use vstd::prelude::*;
use vstd::utf8::encode_utf8;
use crate::framing::{frame_payload, framed_payload, reply_params_view, ReplyParams};
use crate::output::{CosmosMsg, RawWasmOutput, ReplyOn, SubMsg};

verus! {

/// `new` is `old` with routing headers embedded: a message to another
/// contract has its payload framed and its id set to 0; every sub-message is
/// marked as carrying an encrypted message.
pub open spec fn submsg_with_headers(
    old: SubMsg,
    new: SubMsg,
    contract_hash: Seq<char>,
    reply_params: Option<Seq<ReplyParams>>,
) -> bool {
    &&& new.gas_limit == old.gas_limit
    &&& new.reply_on == old.reply_on
    &&& new.was_msg_encrypted
    &&& match old.msg {
        CosmosMsg::Wasm(w) => {
            &&& new.id == 0
            &&& new.msg matches CosmosMsg::Wasm(nw)
            &&& nw.action == w.action
            &&& nw.code_hash == w.code_hash
            &&& nw.funds == w.funds
            &&& nw.callback_sig == w.callback_sig
            &&& nw.msg@ == framed_payload(
                encode_utf8(w.code_hash@),
                old.reply_on != ReplyOn::Never,
                old.id,
                encode_utf8(contract_hash),
                reply_params,
                w.msg@,
            )
        },
        CosmosMsg::Other(_) => new.id == old.id && new.msg == old.msg,
    }
}

/// Each sub-message of `new` is the one of `old` with headers embedded.
pub open spec fn submsgs_with_headers(
    old: Seq<SubMsg>,
    new: Seq<SubMsg>,
    contract_hash: Seq<char>,
    reply_params: Option<Seq<ReplyParams>>,
) -> bool {
    &&& new.len() == old.len()
    &&& forall|i: int|
        0 <= i < old.len() ==> #[trigger] submsg_with_headers(old[i], new[i], contract_hash, reply_params)
}

/// `new` is `old` with headers embedded in the sub-messages of the shapes
/// that have them; all other shapes are unchanged.
pub open spec fn output_with_headers(
    old: RawWasmOutput,
    new: RawWasmOutput,
    contract_hash: Seq<char>,
    reply_params: Option<Seq<ReplyParams>>,
) -> bool {
    match old {
        RawWasmOutput::OkV1 { ok, internal_reply_enclave_sig, internal_msg_id } => {
            &&& new matches RawWasmOutput::OkV1 { ok: nok, internal_reply_enclave_sig: ns, internal_msg_id: ni }
            &&& ns == internal_reply_enclave_sig
            &&& ni == internal_msg_id
            &&& nok.attributes == ok.attributes
            &&& nok.events == ok.events
            &&& nok.data == ok.data
            &&& submsgs_with_headers(ok.messages@, nok.messages@, contract_hash, reply_params)
        },
        RawWasmOutput::OkIBCPacketReceive { ok } => {
            &&& new matches RawWasmOutput::OkIBCPacketReceive { ok: nok }
            &&& nok.acknowledgement == ok.acknowledgement
            &&& nok.attributes == ok.attributes
            &&& nok.events == ok.events
            &&& submsgs_with_headers(ok.messages@, nok.messages@, contract_hash, reply_params)
        },
        _ => new == old,
    }
}

/// Embeds the routing headers into one sub-message.
pub fn attach_reply_headers_to_submsg(
    sub_msg: &mut SubMsg,
    contract_hash: &str,
    reply_params: &Option<Vec<ReplyParams>>,
)
    ensures
        submsg_with_headers(*old(sub_msg), *final(sub_msg), contract_hash@, reply_params_view(reply_params)),
{
    let id = sub_msg.id;
    let expects_reply = sub_msg.reply_on != ReplyOn::Never;
    let is_wasm = match &mut sub_msg.msg {
        CosmosMsg::Wasm(w) => {
            attach_reply_headers_to_v1_wasm_msg(
                &mut w.msg,
                w.code_hash.as_str(),
                expects_reply,
                id,
                contract_hash,
                reply_params,
            );
            true
        },
        CosmosMsg::Other(_) => false,
    };
    if is_wasm {
        // The id travels inside the encrypted payload from here on.
        sub_msg.id = 0;
    }
    sub_msg.was_msg_encrypted = true;
}

/// Frames the payload of a message to another contract: its code hash, a
/// header naming this contract when a reply is expected, a header for each
/// ancestor, then the payload.
pub fn attach_reply_headers_to_v1_wasm_msg(
    msg: &mut Vec<u8>,
    code_hash: &str,
    expects_reply: bool,
    msg_id: u64,
    reply_recipient_contract_hash: &str,
    reply_params: &Option<Vec<ReplyParams>>,
)
    ensures
        final(msg)@ == framed_payload(
            encode_utf8(code_hash@),
            expects_reply,
            msg_id,
            encode_utf8(reply_recipient_contract_hash@),
            reply_params_view(reply_params),
            old(msg)@,
        ),
{
    let framed = frame_payload(
        code_hash.as_bytes(),
        expects_reply,
        msg_id,
        reply_recipient_contract_hash.as_bytes(),
        reply_params,
        msg.as_slice(),
    );
    *msg = framed;
}

/// Embeds the routing headers into every sub-message of a list.
pub fn attach_reply_headers_to_all(
    messages: &mut Vec<SubMsg>,
    contract_hash: &str,
    reply_params: &Option<Vec<ReplyParams>>,
)
    ensures
        submsgs_with_headers(old(messages)@, final(messages)@, contract_hash@, reply_params_view(reply_params)),
{
    let ghost before = messages@;
    let mut i: usize = 0;
    while i < messages.len()
        invariant
            i <= messages@.len(),
            messages@.len() == before.len(),
            forall|j: int|
                0 <= j < i ==> #[trigger] submsg_with_headers(
                    before[j],
                    messages@[j],
                    contract_hash@,
                    reply_params_view(reply_params),
                ),
            forall|j: int| i <= j < messages@.len() ==> messages@[j] == before[j],
        decreases messages@.len() - i,
    {
        attach_reply_headers_to_submsg(&mut messages[i], contract_hash, reply_params);
        i = i + 1;
    }
}

/// Embeds routing headers into the sub-messages of a result, for the shapes
/// that carry sub-messages of the current schema.
pub fn attach_reply_headers_to_submsgs(
    output: RawWasmOutput,
    contract_hash: &str,
    reply_params: &Option<Vec<ReplyParams>>,
) -> (r: RawWasmOutput)
    ensures
        output_with_headers(output, r, contract_hash@, reply_params_view(reply_params)),
{
    let mut output = output;
    match &mut output {
        RawWasmOutput::OkV1 { ok, .. } => {
            attach_reply_headers_to_all(&mut ok.messages, contract_hash, reply_params);
        },
        RawWasmOutput::OkIBCPacketReceive { ok } => {
            attach_reply_headers_to_all(&mut ok.messages, contract_hash, reply_params);
        },
        _ => {},
    }
    output
}

} // verus!
