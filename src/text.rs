//! Fixed pieces of JSON text that the pipeline writes.
use vstd::prelude::*;

verus! {

/// The bytes of `[`.
pub open spec fn open_bracket() -> Seq<u8> {
    seq![0x5bu8]
}

/// The bytes of `[`.
pub fn open_bracket_bytes() -> (r: Vec<u8>)
    ensures
        r@ == open_bracket(),
{
    let r = vec![0x5bu8];
    assert(r@ =~= open_bracket());
    r
}

/// The bytes of `]`.
pub open spec fn close_bracket() -> Seq<u8> {
    seq![0x5du8]
}

/// The bytes of `]`.
pub fn close_bracket_bytes() -> (r: Vec<u8>)
    ensures
        r@ == close_bracket(),
{
    let r = vec![0x5du8];
    assert(r@ =~= close_bracket());
    r
}

/// The bytes of `,`.
pub open spec fn comma() -> Seq<u8> {
    seq![0x2cu8]
}

/// The bytes of `,`.
pub fn comma_bytes() -> (r: Vec<u8>)
    ensures
        r@ == comma(),
{
    let r = vec![0x2cu8];
    assert(r@ =~= comma());
    r
}

/// The bytes of a double quote.
pub open spec fn quote() -> Seq<u8> {
    seq![0x22u8]
}

/// The bytes of a double quote.
pub fn quote_bytes() -> (r: Vec<u8>)
    ensures
        r@ == quote(),
{
    let r = vec![0x22u8];
    assert(r@ =~= quote());
    r
}

/// The bytes of `null`.
pub open spec fn null() -> Seq<u8> {
    seq![0x6eu8, 0x75u8, 0x6cu8, 0x6cu8]
}

/// The bytes of `null`.
pub fn null_bytes() -> (r: Vec<u8>)
    ensures
        r@ == null(),
{
    let r = vec![0x6eu8, 0x75u8, 0x6cu8, 0x6cu8];
    assert(r@ =~= null());
    r
}

/// The bytes of `{"denom":`.
pub open spec fn denom_open() -> Seq<u8> {
    seq![0x7bu8, 0x22u8, 0x64u8, 0x65u8, 0x6eu8, 0x6fu8, 0x6du8, 0x22u8, 0x3au8]
}

/// The bytes of `{"denom":`.
pub fn denom_open_bytes() -> (r: Vec<u8>)
    ensures
        r@ == denom_open(),
{
    let r = vec![0x7bu8, 0x22u8, 0x64u8, 0x65u8, 0x6eu8, 0x6fu8, 0x6du8, 0x22u8, 0x3au8];
    assert(r@ =~= denom_open());
    r
}

/// The bytes of `,"amount":"`.
pub open spec fn amount_open() -> Seq<u8> {
    seq![0x2cu8, 0x22u8, 0x61u8, 0x6du8, 0x6fu8, 0x75u8, 0x6eu8, 0x74u8, 0x22u8, 0x3au8, 0x22u8]
}

/// The bytes of `,"amount":"`.
pub fn amount_open_bytes() -> (r: Vec<u8>)
    ensures
        r@ == amount_open(),
{
    let r = vec![0x2cu8, 0x22u8, 0x61u8, 0x6du8, 0x6fu8, 0x75u8, 0x6eu8, 0x74u8, 0x22u8, 0x3au8, 0x22u8];
    assert(r@ =~= amount_open());
    r
}

/// The bytes of `"}`.
pub open spec fn quote_brace() -> Seq<u8> {
    seq![0x22u8, 0x7du8]
}

/// The bytes of `"}`.
pub fn quote_brace_bytes() -> (r: Vec<u8>)
    ensures
        r@ == quote_brace(),
{
    let r = vec![0x22u8, 0x7du8];
    assert(r@ =~= quote_brace());
    r
}

/// The bytes of `{"generic_err":{"msg":`.
pub open spec fn generic_err_open() -> Seq<u8> {
    seq![0x7bu8, 0x22u8, 0x67u8, 0x65u8, 0x6eu8, 0x65u8, 0x72u8, 0x69u8, 0x63u8, 0x5fu8, 0x65u8, 0x72u8, 0x72u8, 0x22u8, 0x3au8, 0x7bu8, 0x22u8, 0x6du8, 0x73u8, 0x67u8, 0x22u8, 0x3au8]
}

/// The bytes of `{"generic_err":{"msg":`.
pub fn generic_err_open_bytes() -> (r: Vec<u8>)
    ensures
        r@ == generic_err_open(),
{
    let r = vec![0x7bu8, 0x22u8, 0x67u8, 0x65u8, 0x6eu8, 0x65u8, 0x72u8, 0x69u8, 0x63u8, 0x5fu8, 0x65u8, 0x72u8, 0x72u8, 0x22u8, 0x3au8, 0x7bu8, 0x22u8, 0x6du8, 0x73u8, 0x67u8, 0x22u8, 0x3au8];
    assert(r@ =~= generic_err_open());
    r
}

/// The bytes of `}}`.
pub open spec fn braces_close() -> Seq<u8> {
    seq![0x7du8, 0x7du8]
}

/// The bytes of `}}`.
pub fn braces_close_bytes() -> (r: Vec<u8>)
    ensures
        r@ == braces_close(),
{
    let r = vec![0x7du8, 0x7du8];
    assert(r@ =~= braces_close());
    r
}

/// The bytes of `{"id":"`.
pub open spec fn reply_id_open() -> Seq<u8> {
    seq![0x7bu8, 0x22u8, 0x69u8, 0x64u8, 0x22u8, 0x3au8, 0x22u8]
}

/// The bytes of `{"id":"`.
pub fn reply_id_open_bytes() -> (r: Vec<u8>)
    ensures
        r@ == reply_id_open(),
{
    let r = vec![0x7bu8, 0x22u8, 0x69u8, 0x64u8, 0x22u8, 0x3au8, 0x22u8];
    assert(r@ =~= reply_id_open());
    r
}

/// The bytes of `","result":`.
pub open spec fn reply_result_open() -> Seq<u8> {
    seq![0x22u8, 0x2cu8, 0x22u8, 0x72u8, 0x65u8, 0x73u8, 0x75u8, 0x6cu8, 0x74u8, 0x22u8, 0x3au8]
}

/// The bytes of `","result":`.
pub fn reply_result_open_bytes() -> (r: Vec<u8>)
    ensures
        r@ == reply_result_open(),
{
    let r = vec![0x22u8, 0x2cu8, 0x22u8, 0x72u8, 0x65u8, 0x73u8, 0x75u8, 0x6cu8, 0x74u8, 0x22u8, 0x3au8];
    assert(r@ =~= reply_result_open());
    r
}

/// The bytes of `{"ok":{"events":[],"data":`.
pub open spec fn reply_ok_open() -> Seq<u8> {
    seq![0x7bu8, 0x22u8, 0x6fu8, 0x6bu8, 0x22u8, 0x3au8, 0x7bu8, 0x22u8, 0x65u8, 0x76u8, 0x65u8, 0x6eu8, 0x74u8, 0x73u8, 0x22u8, 0x3au8, 0x5bu8, 0x5du8, 0x2cu8, 0x22u8, 0x64u8, 0x61u8, 0x74u8, 0x61u8, 0x22u8, 0x3au8]
}

/// The bytes of `{"ok":{"events":[],"data":`.
pub fn reply_ok_open_bytes() -> (r: Vec<u8>)
    ensures
        r@ == reply_ok_open(),
{
    let r = vec![0x7bu8, 0x22u8, 0x6fu8, 0x6bu8, 0x22u8, 0x3au8, 0x7bu8, 0x22u8, 0x65u8, 0x76u8, 0x65u8, 0x6eu8, 0x74u8, 0x73u8, 0x22u8, 0x3au8, 0x5bu8, 0x5du8, 0x2cu8, 0x22u8, 0x64u8, 0x61u8, 0x74u8, 0x61u8, 0x22u8, 0x3au8];
    assert(r@ =~= reply_ok_open());
    r
}

/// The bytes of `{"error":"`.
pub open spec fn reply_error_open() -> Seq<u8> {
    seq![0x7bu8, 0x22u8, 0x65u8, 0x72u8, 0x72u8, 0x6fu8, 0x72u8, 0x22u8, 0x3au8, 0x22u8]
}

/// The bytes of `{"error":"`.
pub fn reply_error_open_bytes() -> (r: Vec<u8>)
    ensures
        r@ == reply_error_open(),
{
    let r = vec![0x7bu8, 0x22u8, 0x65u8, 0x72u8, 0x72u8, 0x6fu8, 0x72u8, 0x22u8, 0x3au8, 0x22u8];
    assert(r@ =~= reply_error_open());
    r
}

/// The bytes of `,"was_orig_msg_encrypted":true,"is_encrypted":true}`.
pub open spec fn reply_flags_close() -> Seq<u8> {
    seq![0x2cu8, 0x22u8, 0x77u8, 0x61u8, 0x73u8, 0x5fu8, 0x6fu8, 0x72u8, 0x69u8, 0x67u8, 0x5fu8, 0x6du8, 0x73u8, 0x67u8, 0x5fu8, 0x65u8, 0x6eu8, 0x63u8, 0x72u8, 0x79u8, 0x70u8, 0x74u8, 0x65u8, 0x64u8, 0x22u8, 0x3au8, 0x74u8, 0x72u8, 0x75u8, 0x65u8, 0x2cu8, 0x22u8, 0x69u8, 0x73u8, 0x5fu8, 0x65u8, 0x6eu8, 0x63u8, 0x72u8, 0x79u8, 0x70u8, 0x74u8, 0x65u8, 0x64u8, 0x22u8, 0x3au8, 0x74u8, 0x72u8, 0x75u8, 0x65u8, 0x7du8]
}

/// The bytes of `,"was_orig_msg_encrypted":true,"is_encrypted":true}`.
pub fn reply_flags_close_bytes() -> (r: Vec<u8>)
    ensures
        r@ == reply_flags_close(),
{
    let r = vec![0x2cu8, 0x22u8, 0x77u8, 0x61u8, 0x73u8, 0x5fu8, 0x6fu8, 0x72u8, 0x69u8, 0x67u8, 0x5fu8, 0x6du8, 0x73u8, 0x67u8, 0x5fu8, 0x65u8, 0x6eu8, 0x63u8, 0x72u8, 0x79u8, 0x70u8, 0x74u8, 0x65u8, 0x64u8, 0x22u8, 0x3au8, 0x74u8, 0x72u8, 0x75u8, 0x65u8, 0x2cu8, 0x22u8, 0x69u8, 0x73u8, 0x5fu8, 0x65u8, 0x6eu8, 0x63u8, 0x72u8, 0x79u8, 0x70u8, 0x74u8, 0x65u8, 0x64u8, 0x22u8, 0x3au8, 0x74u8, 0x72u8, 0x75u8, 0x65u8, 0x7du8];
    assert(r@ =~= reply_flags_close());
    r
}

/// The bytes of `OK`.
pub open spec fn status_ok() -> Seq<u8> {
    seq![0x4fu8, 0x4bu8]
}

/// The bytes of `OK`.
pub fn status_ok_bytes() -> (r: Vec<u8>)
    ensures
        r@ == status_ok(),
{
    let r = vec![0x4fu8, 0x4bu8];
    assert(r@ =~= status_ok());
    r
}

/// The bytes of `SIGNATURE_INVALID`.
pub open spec fn status_signature_invalid() -> Seq<u8> {
    seq![0x53u8, 0x49u8, 0x47u8, 0x4eu8, 0x41u8, 0x54u8, 0x55u8, 0x52u8, 0x45u8, 0x5fu8, 0x49u8, 0x4eu8, 0x56u8, 0x41u8, 0x4cu8, 0x49u8, 0x44u8]
}

/// The bytes of `SIGNATURE_INVALID`.
pub fn status_signature_invalid_bytes() -> (r: Vec<u8>)
    ensures
        r@ == status_signature_invalid(),
{
    let r = vec![0x53u8, 0x49u8, 0x47u8, 0x4eu8, 0x41u8, 0x54u8, 0x55u8, 0x52u8, 0x45u8, 0x5fu8, 0x49u8, 0x4eu8, 0x56u8, 0x41u8, 0x4cu8, 0x49u8, 0x44u8];
    assert(r@ =~= status_signature_invalid());
    r
}

/// The bytes of `GROUP_REVOKED`.
pub open spec fn status_group_revoked() -> Seq<u8> {
    seq![0x47u8, 0x52u8, 0x4fu8, 0x55u8, 0x50u8, 0x5fu8, 0x52u8, 0x45u8, 0x56u8, 0x4fu8, 0x4bu8, 0x45u8, 0x44u8]
}

/// The bytes of `GROUP_REVOKED`.
pub fn status_group_revoked_bytes() -> (r: Vec<u8>)
    ensures
        r@ == status_group_revoked(),
{
    let r = vec![0x47u8, 0x52u8, 0x4fu8, 0x55u8, 0x50u8, 0x5fu8, 0x52u8, 0x45u8, 0x56u8, 0x4fu8, 0x4bu8, 0x45u8, 0x44u8];
    assert(r@ =~= status_group_revoked());
    r
}

/// The bytes of `SIGNATURE_REVOKED`.
pub open spec fn status_signature_revoked() -> Seq<u8> {
    seq![0x53u8, 0x49u8, 0x47u8, 0x4eu8, 0x41u8, 0x54u8, 0x55u8, 0x52u8, 0x45u8, 0x5fu8, 0x52u8, 0x45u8, 0x56u8, 0x4fu8, 0x4bu8, 0x45u8, 0x44u8]
}

/// The bytes of `SIGNATURE_REVOKED`.
pub fn status_signature_revoked_bytes() -> (r: Vec<u8>)
    ensures
        r@ == status_signature_revoked(),
{
    let r = vec![0x53u8, 0x49u8, 0x47u8, 0x4eu8, 0x41u8, 0x54u8, 0x55u8, 0x52u8, 0x45u8, 0x5fu8, 0x52u8, 0x45u8, 0x56u8, 0x4fu8, 0x4bu8, 0x45u8, 0x44u8];
    assert(r@ =~= status_signature_revoked());
    r
}

/// The bytes of `KEY_REVOKED`.
pub open spec fn status_key_revoked() -> Seq<u8> {
    seq![0x4bu8, 0x45u8, 0x59u8, 0x5fu8, 0x52u8, 0x45u8, 0x56u8, 0x4fu8, 0x4bu8, 0x45u8, 0x44u8]
}

/// The bytes of `KEY_REVOKED`.
pub fn status_key_revoked_bytes() -> (r: Vec<u8>)
    ensures
        r@ == status_key_revoked(),
{
    let r = vec![0x4bu8, 0x45u8, 0x59u8, 0x5fu8, 0x52u8, 0x45u8, 0x56u8, 0x4fu8, 0x4bu8, 0x45u8, 0x44u8];
    assert(r@ =~= status_key_revoked());
    r
}

/// The bytes of `SIGRL_VERSION_MISMATCH`.
pub open spec fn status_sigrl_version_mismatch() -> Seq<u8> {
    seq![0x53u8, 0x49u8, 0x47u8, 0x52u8, 0x4cu8, 0x5fu8, 0x56u8, 0x45u8, 0x52u8, 0x53u8, 0x49u8, 0x4fu8, 0x4eu8, 0x5fu8, 0x4du8, 0x49u8, 0x53u8, 0x4du8, 0x41u8, 0x54u8, 0x43u8, 0x48u8]
}

/// The bytes of `SIGRL_VERSION_MISMATCH`.
pub fn status_sigrl_version_mismatch_bytes() -> (r: Vec<u8>)
    ensures
        r@ == status_sigrl_version_mismatch(),
{
    let r = vec![0x53u8, 0x49u8, 0x47u8, 0x52u8, 0x4cu8, 0x5fu8, 0x56u8, 0x45u8, 0x52u8, 0x53u8, 0x49u8, 0x4fu8, 0x4eu8, 0x5fu8, 0x4du8, 0x49u8, 0x53u8, 0x4du8, 0x41u8, 0x54u8, 0x43u8, 0x48u8];
    assert(r@ =~= status_sigrl_version_mismatch());
    r
}

/// The bytes of `GROUP_OUT_OF_DATE`.
pub open spec fn status_group_out_of_date() -> Seq<u8> {
    seq![0x47u8, 0x52u8, 0x4fu8, 0x55u8, 0x50u8, 0x5fu8, 0x4fu8, 0x55u8, 0x54u8, 0x5fu8, 0x4fu8, 0x46u8, 0x5fu8, 0x44u8, 0x41u8, 0x54u8, 0x45u8]
}

/// The bytes of `GROUP_OUT_OF_DATE`.
pub fn status_group_out_of_date_bytes() -> (r: Vec<u8>)
    ensures
        r@ == status_group_out_of_date(),
{
    let r = vec![0x47u8, 0x52u8, 0x4fu8, 0x55u8, 0x50u8, 0x5fu8, 0x4fu8, 0x55u8, 0x54u8, 0x5fu8, 0x4fu8, 0x46u8, 0x5fu8, 0x44u8, 0x41u8, 0x54u8, 0x45u8];
    assert(r@ =~= status_group_out_of_date());
    r
}

/// The bytes of `CONFIGURATION_NEEDED`.
pub open spec fn status_configuration_needed() -> Seq<u8> {
    seq![0x43u8, 0x4fu8, 0x4eu8, 0x46u8, 0x49u8, 0x47u8, 0x55u8, 0x52u8, 0x41u8, 0x54u8, 0x49u8, 0x4fu8, 0x4eu8, 0x5fu8, 0x4eu8, 0x45u8, 0x45u8, 0x44u8, 0x45u8, 0x44u8]
}

/// The bytes of `CONFIGURATION_NEEDED`.
pub fn status_configuration_needed_bytes() -> (r: Vec<u8>)
    ensures
        r@ == status_configuration_needed(),
{
    let r = vec![0x43u8, 0x4fu8, 0x4eu8, 0x46u8, 0x49u8, 0x47u8, 0x55u8, 0x52u8, 0x41u8, 0x54u8, 0x49u8, 0x4fu8, 0x4eu8, 0x5fu8, 0x4eu8, 0x45u8, 0x45u8, 0x44u8, 0x45u8, 0x44u8];
    assert(r@ =~= status_configuration_needed());
    r
}

/// The bytes of `SW_HARDENING_NEEDED`.
pub open spec fn status_sw_hardening_needed() -> Seq<u8> {
    seq![0x53u8, 0x57u8, 0x5fu8, 0x48u8, 0x41u8, 0x52u8, 0x44u8, 0x45u8, 0x4eu8, 0x49u8, 0x4eu8, 0x47u8, 0x5fu8, 0x4eu8, 0x45u8, 0x45u8, 0x44u8, 0x45u8, 0x44u8]
}

/// The bytes of `SW_HARDENING_NEEDED`.
pub fn status_sw_hardening_needed_bytes() -> (r: Vec<u8>)
    ensures
        r@ == status_sw_hardening_needed(),
{
    let r = vec![0x53u8, 0x57u8, 0x5fu8, 0x48u8, 0x41u8, 0x52u8, 0x44u8, 0x45u8, 0x4eu8, 0x49u8, 0x4eu8, 0x47u8, 0x5fu8, 0x4eu8, 0x45u8, 0x45u8, 0x44u8, 0x45u8, 0x44u8];
    assert(r@ =~= status_sw_hardening_needed());
    r
}

/// The bytes of `CONFIGURATION_AND_SW_HARDENING_NEEDED`.
pub open spec fn status_configuration_and_sw_hardening_needed() -> Seq<u8> {
    seq![0x43u8, 0x4fu8, 0x4eu8, 0x46u8, 0x49u8, 0x47u8, 0x55u8, 0x52u8, 0x41u8, 0x54u8, 0x49u8, 0x4fu8, 0x4eu8, 0x5fu8, 0x41u8, 0x4eu8, 0x44u8, 0x5fu8, 0x53u8, 0x57u8, 0x5fu8, 0x48u8, 0x41u8, 0x52u8, 0x44u8, 0x45u8, 0x4eu8, 0x49u8, 0x4eu8, 0x47u8, 0x5fu8, 0x4eu8, 0x45u8, 0x45u8, 0x44u8, 0x45u8, 0x44u8]
}

/// The bytes of `CONFIGURATION_AND_SW_HARDENING_NEEDED`.
pub fn status_configuration_and_sw_hardening_needed_bytes() -> (r: Vec<u8>)
    ensures
        r@ == status_configuration_and_sw_hardening_needed(),
{
    let r = vec![0x43u8, 0x4fu8, 0x4eu8, 0x46u8, 0x49u8, 0x47u8, 0x55u8, 0x52u8, 0x41u8, 0x54u8, 0x49u8, 0x4fu8, 0x4eu8, 0x5fu8, 0x41u8, 0x4eu8, 0x44u8, 0x5fu8, 0x53u8, 0x57u8, 0x5fu8, 0x48u8, 0x41u8, 0x52u8, 0x44u8, 0x45u8, 0x4eu8, 0x49u8, 0x4eu8, 0x47u8, 0x5fu8, 0x4eu8, 0x45u8, 0x45u8, 0x44u8, 0x45u8, 0x44u8];
    assert(r@ =~= status_configuration_and_sw_hardening_needed());
    r
}

} // verus!
