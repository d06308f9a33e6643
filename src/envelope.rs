//! The output finalizer: the wire envelope handed back to the execution
//! engine, with exactly one shape populated.
use vstd::prelude::*;
use crate::framing::append_bytes;
use crate::output::{
    ContractResult, Event, IbcReceiveResponse, LogAttribute, RawWasmOutput, Response, SubMsg,
};
use crate::text::{braces_close, braces_close_bytes, generic_err_open, generic_err_open_bytes};

verus! {

/// The legacy-schema slot of the envelope; `err` is JSON text.
pub struct V010WasmOutput {
    pub ok: Option<ContractResult>,
    pub err: Option<Vec<u8>>,
}

/// The current-schema slot of the envelope; `err` is JSON text.
pub struct V1WasmOutput {
    pub ok: Option<Response>,
    pub err: Option<Vec<u8>>,
}

/// A successful result of an IBC call other than a packet receive.
pub struct IbcBasicResponse {
    pub messages: Vec<SubMsg>,
    pub attributes: Vec<LogAttribute>,
    pub events: Vec<Event>,
}

pub struct IBCOutput {
    pub ok: Option<IbcBasicResponse>,
    pub err: Option<Vec<u8>>,
}

pub struct IBCReceiveOutput {
    pub ok: Option<IbcReceiveResponse>,
    pub err: Option<Vec<u8>>,
}

pub struct IBCOpenChannelOutput {
    pub ok: Option<String>,
    pub err: Option<Vec<u8>>,
}

pub struct QueryOutput {
    pub ok: Option<String>,
    pub err: Option<Vec<u8>>,
}

/// The wire envelope: at most one shape populated, with the reply
/// information when the result answers an ancestor call.
pub struct WasmOutput {
    pub v010: Option<V010WasmOutput>,
    pub v1: Option<V1WasmOutput>,
    pub ibc_basic: Option<IBCOutput>,
    pub ibc_packet_receive: Option<IBCReceiveOutput>,
    pub ibc_open_channel: Option<IBCOpenChannelOutput>,
    pub query: Option<QueryOutput>,
    pub internal_reply_enclave_sig: Option<Vec<u8>>,
    pub internal_msg_id: Option<Vec<u8>>,
}

/// How many of the six shapes of an envelope are populated.
pub open spec fn populated_shapes(w: WasmOutput) -> nat {
    (if w.v010 is Some { 1nat } else { 0nat }) + (if w.v1 is Some { 1nat } else { 0nat }) + (if w.ibc_basic is Some {
        1nat
    } else {
        0nat
    }) + (if w.ibc_packet_receive is Some { 1nat } else { 0nat }) + (if w.ibc_open_channel is Some {
        1nat
    } else {
        0nat
    }) + (if w.query is Some { 1nat } else { 0nat })
}

/// An error value wrapped as a generic error: `{"generic_err":{"msg":<err>}}`.
pub open spec fn wrapped_generic_err(err: Seq<u8>) -> Seq<u8> {
    generic_err_open() + err + braces_close()
}

/// `w` is the envelope of `raw`.
pub open spec fn finalized(raw: RawWasmOutput, w: WasmOutput, is_query_output: bool, is_ibc: bool, is_msg_encrypted: bool) -> bool {
    match raw {
        RawWasmOutput::Error { err, internal_msg_id, internal_reply_enclave_sig } => if is_query_output {
            &&& w.query matches Some(q)
            &&& q.ok is None
            &&& q.err == Some(err)
            &&& w.v010 is None && w.v1 is None && w.ibc_basic is None
            &&& w.ibc_packet_receive is None && w.ibc_open_channel is None
            &&& w.internal_msg_id is None && w.internal_reply_enclave_sig is None
        } else {
            &&& w.v010 matches Some(v)
            &&& v.ok is None
            &&& v.err matches Some(e)
            &&& e@ == if is_msg_encrypted { err@ } else { wrapped_generic_err(err@) }
            &&& w.query is None && w.v1 is None && w.ibc_basic is None
            &&& w.ibc_packet_receive is None && w.ibc_open_channel is None
            &&& w.internal_msg_id == internal_msg_id
            &&& w.internal_reply_enclave_sig == internal_reply_enclave_sig
        },
        RawWasmOutput::OkV010 { ok, internal_reply_enclave_sig, internal_msg_id } => {
            &&& w.v010 == Some(V010WasmOutput { ok: Some(ok), err: None })
            &&& w.query is None && w.v1 is None && w.ibc_basic is None
            &&& w.ibc_packet_receive is None && w.ibc_open_channel is None
            &&& w.internal_msg_id == internal_msg_id
            &&& w.internal_reply_enclave_sig == internal_reply_enclave_sig
        },
        RawWasmOutput::OkV1 { ok, internal_reply_enclave_sig, internal_msg_id } => {
            &&& if is_ibc {
                &&& w.ibc_basic == Some(
                    IBCOutput {
                        ok: Some(
                            IbcBasicResponse { messages: ok.messages, attributes: ok.attributes, events: ok.events },
                        ),
                        err: None,
                    },
                )
                &&& w.v1 is None
            } else {
                &&& w.v1 == Some(V1WasmOutput { ok: Some(ok), err: None })
                &&& w.ibc_basic is None
            }
            &&& w.query is None && w.v010 is None
            &&& w.ibc_packet_receive is None && w.ibc_open_channel is None
            &&& w.internal_msg_id == internal_msg_id
            &&& w.internal_reply_enclave_sig == internal_reply_enclave_sig
        },
        RawWasmOutput::QueryOkV010 { ok } => {
            &&& w.query == Some(QueryOutput { ok: Some(ok), err: None })
            &&& w.v010 is None && w.v1 is None && w.ibc_basic is None
            &&& w.ibc_packet_receive is None && w.ibc_open_channel is None
            &&& w.internal_msg_id is None && w.internal_reply_enclave_sig is None
        },
        RawWasmOutput::QueryOkV1 { ok } => {
            &&& w.query == Some(QueryOutput { ok: Some(ok), err: None })
            &&& w.v010 is None && w.v1 is None && w.ibc_basic is None
            &&& w.ibc_packet_receive is None && w.ibc_open_channel is None
            &&& w.internal_msg_id is None && w.internal_reply_enclave_sig is None
        },
        RawWasmOutput::OkIBCPacketReceive { ok } => {
            &&& w.ibc_packet_receive == Some(IBCReceiveOutput { ok: Some(ok), err: None })
            &&& w.v010 is None && w.v1 is None && w.ibc_basic is None
            &&& w.query is None && w.ibc_open_channel is None
            &&& w.internal_msg_id is None && w.internal_reply_enclave_sig is None
        },
        RawWasmOutput::OkIBCOpenChannel { ok } => {
            &&& w.ibc_open_channel matches Some(o)
            &&& o.err is None
            &&& o.ok matches Some(version)
            &&& match ok {
                Some(resp) => version == resp.version,
                None => version@ == Seq::<char>::empty(),
            }
            &&& w.v010 is None && w.v1 is None && w.ibc_basic is None
            &&& w.query is None && w.ibc_packet_receive is None
            &&& w.internal_msg_id is None && w.internal_reply_enclave_sig is None
        },
    }
}

/// An envelope with nothing populated.
pub fn empty_wasm_output() -> (r: WasmOutput)
    ensures
        r.v010 is None && r.v1 is None && r.ibc_basic is None && r.ibc_packet_receive is None,
        r.ibc_open_channel is None && r.query is None,
        r.internal_reply_enclave_sig is None && r.internal_msg_id is None,
{
    WasmOutput {
        v010: None,
        v1: None,
        ibc_basic: None,
        ibc_packet_receive: None,
        ibc_open_channel: None,
        query: None,
        internal_reply_enclave_sig: None,
        internal_msg_id: None,
    }
}

/// Maps a processed result into the wire envelope. An error outside an
/// encrypted context is wrapped as a generic error.
pub fn finalize_raw_output(
    raw_output: RawWasmOutput,
    is_query_output: bool,
    is_ibc: bool,
    is_msg_encrypted: bool,
) -> (r: WasmOutput)
    ensures
        finalized(raw_output, r, is_query_output, is_ibc, is_msg_encrypted),
        populated_shapes(r) == 1,
{
    let mut wasm_output = empty_wasm_output();
    match raw_output {
        RawWasmOutput::Error { err, internal_msg_id, internal_reply_enclave_sig } => {
            if is_query_output {
                wasm_output.query = Some(QueryOutput { ok: None, err: Some(err) });
            } else {
                let e = if is_msg_encrypted {
                    err
                } else {
                    let mut wrapped = generic_err_open_bytes();
                    append_bytes(&mut wrapped, err.as_slice());
                    let c = braces_close_bytes();
                    append_bytes(&mut wrapped, c.as_slice());
                    wrapped
                };
                wasm_output.v010 = Some(V010WasmOutput { err: Some(e), ok: None });
                wasm_output.internal_reply_enclave_sig = internal_reply_enclave_sig;
                wasm_output.internal_msg_id = internal_msg_id;
            }
        },
        RawWasmOutput::OkV010 { ok, internal_reply_enclave_sig, internal_msg_id } => {
            wasm_output.v010 = Some(V010WasmOutput { err: None, ok: Some(ok) });
            wasm_output.internal_reply_enclave_sig = internal_reply_enclave_sig;
            wasm_output.internal_msg_id = internal_msg_id;
        },
        RawWasmOutput::OkV1 { ok, internal_reply_enclave_sig, internal_msg_id } => {
            if is_ibc {
                wasm_output.ibc_basic = Some(
                    IBCOutput {
                        err: None,
                        ok: Some(
                            IbcBasicResponse { messages: ok.messages, attributes: ok.attributes, events: ok.events },
                        ),
                    },
                );
            } else {
                wasm_output.v1 = Some(V1WasmOutput { err: None, ok: Some(ok) });
            }
            wasm_output.internal_reply_enclave_sig = internal_reply_enclave_sig;
            wasm_output.internal_msg_id = internal_msg_id;
        },
        RawWasmOutput::QueryOkV010 { ok } => {
            wasm_output.query = Some(QueryOutput { ok: Some(ok), err: None });
        },
        RawWasmOutput::QueryOkV1 { ok } => {
            wasm_output.query = Some(QueryOutput { ok: Some(ok), err: None });
        },
        RawWasmOutput::OkIBCPacketReceive { ok } => {
            wasm_output.ibc_packet_receive = Some(IBCReceiveOutput { err: None, ok: Some(ok) });
        },
        RawWasmOutput::OkIBCOpenChannel { ok } => {
            let version = match ok {
                Some(o) => o.version,
                None => String::new(),
            };
            wasm_output.ibc_open_channel = Some(IBCOpenChannelOutput { err: None, ok: Some(version) });
        },
    }
    wasm_output
}

/// Every finalized envelope has exactly one of its six shapes populated.
pub proof fn lemma_finalized_has_one_shape(
    raw: RawWasmOutput,
    w: WasmOutput,
    is_query_output: bool,
    is_ibc: bool,
    is_msg_encrypted: bool,
)
    requires
        finalized(raw, w, is_query_output, is_ibc, is_msg_encrypted),
    ensures
        populated_shapes(w) == 1,
{
}

/// Clears the encrypted mark of every attribute of a list.
pub fn set_attributes_to_plaintext(attributes: &mut Vec<LogAttribute>)
    ensures
        final(attributes)@.len() == old(attributes)@.len(),
        forall|i: int|
            0 <= i < old(attributes)@.len() ==> {
                &&& !(#[trigger] final(attributes)@[i]).encrypted
                &&& final(attributes)@[i].key == old(attributes)@[i].key
                &&& final(attributes)@[i].value == old(attributes)@[i].value
            },
{
    let ghost before = attributes@;
    let mut i: usize = 0;
    while i < attributes.len()
        invariant
            i <= attributes@.len(),
            attributes@.len() == before.len(),
            before == old(attributes)@,
            forall|j: int|
                0 <= j < i ==> {
                    &&& !(#[trigger] attributes@[j]).encrypted
                    &&& attributes@[j].key == before[j].key
                    &&& attributes@[j].value == before[j].value
                },
            forall|j: int| i <= j < attributes@.len() ==> attributes@[j] == before[j],
        decreases attributes@.len() - i,
    {
        attributes[i].encrypted = false;
        i = i + 1;
    }
}

/// Every attribute of a list is unmarked, with the key and value of the
/// attribute at the same place in `old`.
pub open spec fn attributes_plain(old: Seq<LogAttribute>, new: Seq<LogAttribute>) -> bool {
    &&& new.len() == old.len()
    &&& forall|i: int|
        0 <= i < old.len() ==> {
            &&& !(#[trigger] new[i]).encrypted
            &&& new[i].key == old[i].key
            &&& new[i].value == old[i].value
        }
}

/// The events of `new` are those of `old` with every attribute unmarked.
pub open spec fn events_plain(old: Seq<Event>, new: Seq<Event>) -> bool {
    &&& new.len() == old.len()
    &&& forall|i: int|
        0 <= i < old.len() ==> {
            &&& (#[trigger] new[i]).ty == old[i].ty
            &&& attributes_plain(old[i].attributes@, new[i].attributes@)
        }
}

/// Clears the encrypted mark of every attribute of every event.
pub fn set_events_to_plaintext(events: &mut Vec<Event>)
    ensures
        events_plain(old(events)@, final(events)@),
{
    let ghost before = events@;
    let mut i: usize = 0;
    while i < events.len()
        invariant
            i <= events@.len(),
            events@.len() == before.len(),
            before == old(events)@,
            forall|j: int|
                0 <= j < i ==> {
                    &&& (#[trigger] events@[j]).ty == before[j].ty
                    &&& attributes_plain(before[j].attributes@, events@[j].attributes@)
                },
            forall|j: int| i <= j < events@.len() ==> events@[j] == before[j],
        decreases events@.len() - i,
    {
        let ev = &mut events[i];
        set_attributes_to_plaintext(&mut ev.attributes);
        i = i + 1;
    }
}

/// Clears the encrypted mark of every attribute and event attribute of a
/// result of the current schema; other shapes are left as they are.
pub fn set_all_logs_to_plaintext(raw_output: &mut RawWasmOutput)
    ensures
        match *old(raw_output) {
            RawWasmOutput::OkV1 { ok, internal_reply_enclave_sig, internal_msg_id } => {
                &&& *final(raw_output) matches RawWasmOutput::OkV1 { ok: nok, internal_reply_enclave_sig: ns, internal_msg_id: ni }
                &&& ns == internal_reply_enclave_sig && ni == internal_msg_id
                &&& nok.messages == ok.messages && nok.data == ok.data
                &&& attributes_plain(ok.attributes@, nok.attributes@)
                &&& events_plain(ok.events@, nok.events@)
            },
            RawWasmOutput::OkIBCPacketReceive { ok } => {
                &&& *final(raw_output) matches RawWasmOutput::OkIBCPacketReceive { ok: nok }
                &&& nok.messages == ok.messages && nok.acknowledgement == ok.acknowledgement
                &&& attributes_plain(ok.attributes@, nok.attributes@)
                &&& events_plain(ok.events@, nok.events@)
            },
            _ => *final(raw_output) == *old(raw_output),
        },
{
    match raw_output {
        RawWasmOutput::OkV1 { ok, .. } => {
            set_attributes_to_plaintext(&mut ok.attributes);
            set_events_to_plaintext(&mut ok.events);
        },
        RawWasmOutput::OkIBCPacketReceive { ok } => {
            set_attributes_to_plaintext(&mut ok.attributes);
            set_events_to_plaintext(&mut ok.events);
        },
        _ => {},
    }
}

} // verus!
