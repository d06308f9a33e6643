//! The data model of a contract call's result, as the execution engine hands
//! it over and as the pipeline rewrites it.
use vstd::prelude::*;

verus! {

/// The failures of the pipeline.
#[derive(Clone, Copy, Debug, PartialEq, Eq, Structural)]
pub enum EnclaveError {
    /// Authenticated encryption, or the serialisation before it, failed.
    EncryptionError,
    /// The envelope could not be serialised.
    FailedToSerialize,
    /// Bytes could not be read as the expected structure.
    FailedToDeserialize,
    /// An invariant of the pipeline does not hold of its input.
    InternalError,
}

/// An amount of one denomination.
pub struct Coin {
    pub denom: String,
    pub amount: u128,
}

/// When the result of a sub-message is routed back to its sender.
#[derive(Clone, Copy, Debug, PartialEq, Eq, Structural)]
pub enum ReplyOn {
    Always,
    Error,
    Success,
    Never,
}

/// What a message to another contract asks it to do.
pub enum WasmAction {
    Execute { contract_addr: String },
    Instantiate { code_id: u64, label: String },
}

/// A message to another contract (current schema).
pub struct WasmMsg {
    pub action: WasmAction,
    /// Code hash of the target contract, as hex text.
    pub code_hash: String,
    pub msg: Vec<u8>,
    pub funds: Vec<Coin>,
    pub callback_sig: Option<Vec<u8>>,
}

/// An instruction emitted by a contract (current schema): to another
/// contract, or to a native module, which is carried as its JSON text.
pub enum CosmosMsg {
    Wasm(WasmMsg),
    Other(Vec<u8>),
}

/// An outgoing sub-message (current schema).
pub struct SubMsg {
    pub id: u64,
    pub msg: CosmosMsg,
    pub gas_limit: Option<u64>,
    pub reply_on: ReplyOn,
    pub was_msg_encrypted: bool,
}

/// A key/value attribute of a log or event.
pub struct LogAttribute {
    pub key: String,
    pub value: String,
    pub encrypted: bool,
}

/// A custom event.
pub struct Event {
    pub ty: String,
    pub attributes: Vec<LogAttribute>,
}

/// A successful result (current schema).
pub struct Response {
    pub messages: Vec<SubMsg>,
    pub attributes: Vec<LogAttribute>,
    pub events: Vec<Event>,
    pub data: Option<Vec<u8>>,
}

/// A message to another contract (legacy schema).
pub struct WasmMsgV010 {
    pub action: WasmAction,
    /// Code hash of the target contract, as hex text.
    pub callback_code_hash: String,
    pub msg: Vec<u8>,
    pub send: Vec<Coin>,
    pub callback_sig: Option<Vec<u8>>,
}

/// An instruction emitted by a contract (legacy schema).
pub enum CosmosMsgV010 {
    Wasm(WasmMsgV010),
    Other(Vec<u8>),
}

/// A successful result (legacy schema).
pub struct ContractResult {
    pub messages: Vec<CosmosMsgV010>,
    pub log: Vec<LogAttribute>,
    pub data: Option<Vec<u8>>,
}

/// A successful result of receiving an IBC packet.
pub struct IbcReceiveResponse {
    pub acknowledgement: Vec<u8>,
    pub messages: Vec<SubMsg>,
    pub attributes: Vec<LogAttribute>,
    pub events: Vec<Event>,
}

/// A successful result of opening an IBC channel.
pub struct IbcChannelOpenResponse {
    pub version: String,
}

/// The raw result of a contract call: exactly one shape.
pub enum RawWasmOutput {
    /// A failed call; `err` is the error value as JSON text.
    Error {
        err: Vec<u8>,
        internal_msg_id: Option<Vec<u8>>,
        internal_reply_enclave_sig: Option<Vec<u8>>,
    },
    QueryOkV010 { ok: String },
    QueryOkV1 { ok: String },
    OkV010 {
        ok: ContractResult,
        internal_reply_enclave_sig: Option<Vec<u8>>,
        internal_msg_id: Option<Vec<u8>>,
    },
    OkV1 {
        ok: Response,
        internal_reply_enclave_sig: Option<Vec<u8>>,
        internal_msg_id: Option<Vec<u8>>,
    },
    OkIBCPacketReceive { ok: IbcReceiveResponse },
    OkIBCOpenChannel { ok: Option<IbcChannelOpenResponse> },
}

} // verus!
