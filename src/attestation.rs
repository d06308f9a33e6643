//! The attestation verifier: a signed report is accepted only when its
//! certificate chains to the trust anchor, its signature verifies, its JSON
//! is of the supported version, its quote parses and its quote status passes
//! the policy. On acceptance the identity key in the quote's report data is
//! the one verified claim.
use vstd::prelude::*;
use vstd::utf8::encode_utf8;
use crate::crypto::{all_hex_digits, base64_decode, base64_decoded, hex_bytes, hex_decode};
use crate::framing::{bytes_match_at, copy_range};
use webpki::trust_anchor_util::cert_der_as_trust_anchor;
use webpki::{
    EndEntityCert, SignatureAlgorithm, TLSServerTrustAnchors, Time, ECDSA_P256_SHA256, ECDSA_P256_SHA384,
    ECDSA_P384_SHA256, ECDSA_P384_SHA384, RSA_PKCS1_2048_8192_SHA256, RSA_PKCS1_2048_8192_SHA384,
    RSA_PKCS1_2048_8192_SHA512, RSA_PKCS1_3072_8192_SHA384, RSA_PSS_2048_8192_SHA256_LEGACY_KEY,
    RSA_PSS_2048_8192_SHA384_LEGACY_KEY, RSA_PSS_2048_8192_SHA512_LEGACY_KEY,
};
use crate::text::{
    status_configuration_and_sw_hardening_needed, status_configuration_and_sw_hardening_needed_bytes,
    status_configuration_needed, status_configuration_needed_bytes, status_group_out_of_date,
    status_group_out_of_date_bytes, status_group_revoked, status_group_revoked_bytes, status_key_revoked,
    status_key_revoked_bytes, status_ok, status_ok_bytes, status_signature_invalid,
    status_signature_invalid_bytes, status_signature_revoked, status_signature_revoked_bytes,
    status_sigrl_version_mismatch, status_sigrl_version_mismatch_bytes, status_sw_hardening_needed,
    status_sw_hardening_needed_bytes,
};

verus! {

/// The time (seconds since the Unix epoch, 2023-11-04) at which certificates
/// are validated by default: enclave clocks are not trusted.
pub const REFERENCE_TIME_SECS: u64 = 1699088856;

/// The only report API version accepted.
pub const REPORT_VERSION: u64 = 4;

/// Length of a quote body.
pub const QUOTE_BODY_LEN: usize = 432;

/// Where the report data starts in a quote body.
pub const REPORT_DATA_OFFSET: usize = 368;

/// Length of the report data.
pub const REPORT_DATA_LEN: usize = 64;

/// Length of the identity key at the start of the report data.
pub const IDENTITY_KEY_LEN: usize = 32;

// ---------------------------------------------------------------------------
// Outside capabilities
// ---------------------------------------------------------------------------

/// The unsigned integer under `key` in a JSON object text: none when the text
/// is not JSON, the member is missing, or it is not an integer that fits.
pub uninterp spec fn json_u64_member(text: Seq<char>, key: Seq<char>) -> Option<u64>;

/// The string under `key` in a JSON object text: none when the text is not
/// JSON, the member is missing, or it is not a string.
pub uninterp spec fn json_str_member(text: Seq<char>, key: Seq<char>) -> Option<Seq<char>>;

/// The member `key` of a JSON object text read as a list of strings: none
/// when it is missing (or the text is not JSON), `Some(None)` when it is there
/// but not a list of strings.
pub uninterp spec fn json_str_list_member(text: Seq<char>, key: Seq<char>) -> Option<Option<Seq<Seq<char>>>>;

/// Whether a DER certificate is valid for TLS server use at `time`, chained
/// through `intermediate` to the trust anchor of the DER certificate `root`.
pub uninterp spec fn cert_chain_valid(cert: Seq<u8>, root: Seq<u8>, intermediate: Seq<u8>, time: u64) -> bool;

/// Whether `sig` is an RSA PKCS#1 v1.5 SHA-256 signature of `msg` under the
/// public key of the DER certificate `cert`.
pub uninterp spec fn report_signature_valid(cert: Seq<u8>, msg: Seq<u8>, sig: Seq<u8>) -> bool;

/// Relies on serde_json::from_str into a `Value`, indexing it by `key` and
/// `Value::as_u64`.
#[verifier::external_body]
fn json_u64(text: &str, key: &str) -> (r: Option<u64>)
    ensures
        r == json_u64_member(text@, key@),
{
    match serde_json::from_str::<serde_json::Value>(text) {
        Ok(v) => v[key].as_u64(),
        Err(_) => None,
    }
}

/// Relies on serde_json::from_str into a `Value`, indexing it by `key` and
/// `Value::as_str`.
#[verifier::external_body]
fn json_str(text: &str, key: &str) -> (r: Option<String>)
    ensures
        match json_str_member(text@, key@) {
            Some(s) => r matches Some(v) && v@ == s,
            None => r is None,
        },
{
    match serde_json::from_str::<serde_json::Value>(text) {
        Ok(v) => match v[key].as_str() {
            Some(s) => Some(s.to_string()),
            None => None,
        },
        Err(_) => None,
    }
}

/// Relies on serde_json::from_str into a `Value`, `Value::get` and
/// serde_json::from_value into a `Vec<String>`.
#[verifier::external_body]
fn json_str_list(text: &str, key: &str) -> (r: Option<Option<Vec<String>>>)
    ensures
        match json_str_list_member(text@, key@) {
            None => r is None,
            Some(None) => r == Some(None::<Vec<String>>),
            Some(Some(l)) => r matches Some(Some(v)) && v@.len() == l.len() && forall|i: int|
                0 <= i < l.len() ==> #[trigger] v@[i]@ == l[i],
        },
{
    match serde_json::from_str::<serde_json::Value>(text) {
        Ok(v) => match v.get(key) {
            Some(m) => Some(serde_json::from_value::<Vec<String>>(m.clone()).ok()),
            None => None,
        },
        Err(_) => None,
    }
}

/// Relies on webpki::EndEntityCert::from, webpki::trust_anchor_util::
/// cert_der_as_trust_anchor and EndEntityCert::verify_is_valid_tls_server_cert.
/// The accepted signature algorithms (the usual ECDSA and RSA ones) are a
/// policy constant that stands here because webpki's algorithm values are
/// opaque to the verified code.
#[verifier::external_body]
fn verify_cert_chain(cert: &[u8], root: &[u8], intermediate: &[u8], time: u64) -> (r: bool)
    ensures
        r == cert_chain_valid(cert@, root@, intermediate@, time),
{
    let ee = match EndEntityCert::from(cert) {
        Ok(ee) => ee,
        Err(_) => return false,
    };
    let anchors = match cert_der_as_trust_anchor(root) {
        Ok(anchor) => [anchor],
        Err(_) => return false,
    };
    let algs: &[&SignatureAlgorithm] = &[&ECDSA_P256_SHA256, &ECDSA_P256_SHA384, &ECDSA_P384_SHA256,
        &ECDSA_P384_SHA384, &RSA_PSS_2048_8192_SHA256_LEGACY_KEY, &RSA_PSS_2048_8192_SHA384_LEGACY_KEY,
        &RSA_PSS_2048_8192_SHA512_LEGACY_KEY, &RSA_PKCS1_2048_8192_SHA256, &RSA_PKCS1_2048_8192_SHA384,
        &RSA_PKCS1_2048_8192_SHA512, &RSA_PKCS1_3072_8192_SHA384];
    let time = Time::from_seconds_since_unix_epoch(time);
    ee.verify_is_valid_tls_server_cert(algs, &TLSServerTrustAnchors(&anchors), &[intermediate], time).is_ok()
}

/// Relies on webpki::EndEntityCert::from and EndEntityCert::verify_signature
/// with RSA PKCS#1 (2048 to 8192 bits) over SHA-256.
#[verifier::external_body]
fn verify_report_signature(cert: &[u8], msg: &[u8], sig: &[u8]) -> (r: bool)
    ensures
        r == report_signature_valid(cert@, msg@, sig@),
{
    match EndEntityCert::from(cert) {
        Ok(ee) => ee.verify_signature(&RSA_PKCS1_2048_8192_SHA256, msg, sig).is_ok(),
        Err(_) => false,
    }
}

// ---------------------------------------------------------------------------
// Quote status and policy
// ---------------------------------------------------------------------------

/// Why a report was rejected.
#[derive(Clone, Copy, Debug, PartialEq, Eq, Structural)]
pub enum AttestationError {
    /// The certificate, its chain or the report signature did not verify,
    /// or the quote status failed the policy.
    VerificationError,
    /// The report JSON is of another version, misses a field, or holds a
    /// malformed one.
    ReportParseError,
}

/// The status that the attestation service gave the quote.
#[derive(Clone, Copy, Debug, PartialEq, Eq, Structural)]
pub enum QuoteStatus {
    OK,
    SignatureInvalid,
    GroupRevoked,
    SignatureRevoked,
    KeyRevoked,
    SigrlVersionMismatch,
    GroupOutOfDate,
    ConfigurationNeeded,
    SwHardeningNeeded,
    ConfigurationAndSwHardeningNeeded,
    UnknownBadStatus,
}

/// The outcome of the quote status check.
#[derive(Clone, Copy, Debug, PartialEq, Eq, Structural)]
pub enum NodeAuthResult {
    Success,
    SignatureInvalid,
    GroupRevoked,
    SignatureRevoked,
    KeyRevoked,
    SigrlVersionMismatch,
    GroupOutOfDate,
    ConfigurationNeeded,
    SwHardeningNeeded,
    ConfigurationAndSwHardeningNeeded,
    BadQuoteStatus,
    /// The platform has advisories outside the allow-list.
    VulnerableAdvisories,
}

/// Which quote statuses are accepted.
#[derive(Clone, Copy, Debug, PartialEq, Eq, Structural)]
pub enum StatusPolicy {
    /// Production: only up-to-date platforms (possibly needing software
    /// hardening), whose advisories are all allowed.
    Strict,
    /// Test networks: also out-of-date platforms; disallowed advisories only
    /// downgrade the outcome to a warning.
    Lenient,
}

/// The status that a status text names.
pub open spec fn status_of(text: Seq<u8>) -> QuoteStatus {
    if text == status_ok() {
        QuoteStatus::OK
    } else if text == status_signature_invalid() {
        QuoteStatus::SignatureInvalid
    } else if text == status_group_revoked() {
        QuoteStatus::GroupRevoked
    } else if text == status_signature_revoked() {
        QuoteStatus::SignatureRevoked
    } else if text == status_key_revoked() {
        QuoteStatus::KeyRevoked
    } else if text == status_sigrl_version_mismatch() {
        QuoteStatus::SigrlVersionMismatch
    } else if text == status_group_out_of_date() {
        QuoteStatus::GroupOutOfDate
    } else if text == status_configuration_needed() {
        QuoteStatus::ConfigurationNeeded
    } else if text == status_sw_hardening_needed() {
        QuoteStatus::SwHardeningNeeded
    } else if text == status_configuration_and_sw_hardening_needed() {
        QuoteStatus::ConfigurationAndSwHardeningNeeded
    } else {
        QuoteStatus::UnknownBadStatus
    }
}

/// The outcome that names a rejected status.
pub open spec fn auth_result_of_status(s: QuoteStatus) -> NodeAuthResult {
    match s {
        QuoteStatus::SignatureInvalid => NodeAuthResult::SignatureInvalid,
        QuoteStatus::GroupRevoked => NodeAuthResult::GroupRevoked,
        QuoteStatus::SignatureRevoked => NodeAuthResult::SignatureRevoked,
        QuoteStatus::KeyRevoked => NodeAuthResult::KeyRevoked,
        QuoteStatus::SigrlVersionMismatch => NodeAuthResult::SigrlVersionMismatch,
        QuoteStatus::GroupOutOfDate => NodeAuthResult::GroupOutOfDate,
        QuoteStatus::ConfigurationNeeded => NodeAuthResult::ConfigurationNeeded,
        QuoteStatus::SwHardeningNeeded => NodeAuthResult::SwHardeningNeeded,
        QuoteStatus::ConfigurationAndSwHardeningNeeded => NodeAuthResult::ConfigurationAndSwHardeningNeeded,
        _ => NodeAuthResult::BadQuoteStatus,
    }
}

/// Whether a policy accepts a status (before the advisory check).
pub open spec fn status_accepted(s: QuoteStatus, policy: StatusPolicy) -> bool {
    ||| s == QuoteStatus::OK
    ||| s == QuoteStatus::SwHardeningNeeded
    ||| s == QuoteStatus::ConfigurationAndSwHardeningNeeded
    ||| (policy == StatusPolicy::Lenient && s == QuoteStatus::GroupOutOfDate)
}

/// Whether every advisory is on the allow-list.
pub open spec fn advisories_allowed(ids: Seq<Seq<char>>, allowed: Seq<Seq<char>>) -> bool {
    forall|i: int| 0 <= i < ids.len() ==> allowed.contains(#[trigger] ids[i])
}

/// The verdict of the status check.
pub open spec fn quote_status_verdict(s: QuoteStatus, advisories_ok: bool, policy: StatusPolicy) -> Result<NodeAuthResult, NodeAuthResult> {
    if !status_accepted(s, policy) {
        Err(auth_result_of_status(s))
    } else if advisories_ok {
        Ok(NodeAuthResult::Success)
    } else if policy == StatusPolicy::Lenient {
        Ok(NodeAuthResult::VulnerableAdvisories)
    } else {
        Err(NodeAuthResult::VulnerableAdvisories)
    }
}

/// The views of a list of strings.
pub open spec fn texts(v: Seq<String>) -> Seq<Seq<char>> {
    v.map_values(|s: String| s@)
}

/// Whether two byte strings are equal.
pub fn bytes_equal(a: &[u8], b: &[u8]) -> (r: bool)
    ensures
        r == (a@ == b@),
{
    if a.len() != b.len() {
        return false;
    }
    let r = bytes_match_at(a, 0, b);
    assert(a@.subrange(0, b@.len() as int) =~= a@);
    r
}

impl QuoteStatus {
    /// The status that a status text names; any other text is an unknown,
    /// bad status.
    pub fn from_status_text(text: &str) -> (r: QuoteStatus)
        ensures
            r == status_of(encode_utf8(text@)),
    {
        let b = text.as_bytes();
        if bytes_equal(b, status_ok_bytes().as_slice()) {
            QuoteStatus::OK
        } else if bytes_equal(b, status_signature_invalid_bytes().as_slice()) {
            QuoteStatus::SignatureInvalid
        } else if bytes_equal(b, status_group_revoked_bytes().as_slice()) {
            QuoteStatus::GroupRevoked
        } else if bytes_equal(b, status_signature_revoked_bytes().as_slice()) {
            QuoteStatus::SignatureRevoked
        } else if bytes_equal(b, status_key_revoked_bytes().as_slice()) {
            QuoteStatus::KeyRevoked
        } else if bytes_equal(b, status_sigrl_version_mismatch_bytes().as_slice()) {
            QuoteStatus::SigrlVersionMismatch
        } else if bytes_equal(b, status_group_out_of_date_bytes().as_slice()) {
            QuoteStatus::GroupOutOfDate
        } else if bytes_equal(b, status_configuration_needed_bytes().as_slice()) {
            QuoteStatus::ConfigurationNeeded
        } else if bytes_equal(b, status_sw_hardening_needed_bytes().as_slice()) {
            QuoteStatus::SwHardeningNeeded
        } else if bytes_equal(b, status_configuration_and_sw_hardening_needed_bytes().as_slice()) {
            QuoteStatus::ConfigurationAndSwHardeningNeeded
        } else {
            QuoteStatus::UnknownBadStatus
        }
    }
}

impl NodeAuthResult {
    /// The outcome that names a rejected status.
    pub fn from_status(s: QuoteStatus) -> (r: NodeAuthResult)
        ensures
            r == auth_result_of_status(s),
    {
        match s {
            QuoteStatus::SignatureInvalid => NodeAuthResult::SignatureInvalid,
            QuoteStatus::GroupRevoked => NodeAuthResult::GroupRevoked,
            QuoteStatus::SignatureRevoked => NodeAuthResult::SignatureRevoked,
            QuoteStatus::KeyRevoked => NodeAuthResult::KeyRevoked,
            QuoteStatus::SigrlVersionMismatch => NodeAuthResult::SigrlVersionMismatch,
            QuoteStatus::GroupOutOfDate => NodeAuthResult::GroupOutOfDate,
            QuoteStatus::ConfigurationNeeded => NodeAuthResult::ConfigurationNeeded,
            QuoteStatus::SwHardeningNeeded => NodeAuthResult::SwHardeningNeeded,
            QuoteStatus::ConfigurationAndSwHardeningNeeded => NodeAuthResult::ConfigurationAndSwHardeningNeeded,
            _ => NodeAuthResult::BadQuoteStatus,
        }
    }
}

/// Whether every advisory is on the allow-list.
pub fn check_advisories(ids: &Vec<String>, allowed: &Vec<String>) -> (r: bool)
    ensures
        r == advisories_allowed(texts(ids@), texts(allowed@)),
{
    let mut i: usize = 0;
    while i < ids.len()
        invariant
            i <= ids@.len(),
            forall|k: int| 0 <= k < i ==> texts(allowed@).contains(#[trigger] texts(ids@)[k]),
        decreases ids@.len() - i,
    {
        let mut found = false;
        let mut j: usize = 0;
        while j < allowed.len() && !found
            invariant
                j <= allowed@.len(),
                i < ids@.len(),
                found ==> texts(allowed@).contains(texts(ids@)[i as int]),
                !found ==> forall|k: int| 0 <= k < j ==> allowed@[k]@ != ids@[i as int]@,
            decreases allowed@.len() - j,
        {
            if allowed[j] == ids[i] {
                found = true;
                assert(texts(allowed@)[j as int] == texts(ids@)[i as int]);
            }
            j = j + 1;
        }
        if !found {
            assert(!texts(allowed@).contains(texts(ids@)[i as int])) by {
                if texts(allowed@).contains(texts(ids@)[i as int]) {
                    let k = choose|k: int| 0 <= k < texts(allowed@).len() && texts(allowed@)[k] == texts(ids@)[i as int];
                    assert(allowed@[k]@ == ids@[i as int]@);
                }
            }
            return false;
        }
        i = i + 1;
    }
    true
}

// ---------------------------------------------------------------------------
// Quote body
// ---------------------------------------------------------------------------

/// The fields of a quote body that the verifier reads.
pub struct QuoteBody {
    pub version: u16,
    pub sign_type: u16,
    pub epid_group_id: u32,
    pub qe_svn: u16,
    pub pce_svn: u16,
    pub mr_enclave: Vec<u8>,
    pub mr_signer: Vec<u8>,
    pub isv_prod_id: u16,
    pub isv_svn: u16,
    pub report_data: Vec<u8>,
}

/// A little-endian 16-bit integer at `at`.
pub open spec fn le16(b: Seq<u8>, at: int) -> u16 {
    (b[at] as u16) | ((b[at + 1] as u16) << 8u16)
}

/// A little-endian 32-bit integer at `at`.
pub open spec fn le32(b: Seq<u8>, at: int) -> u32 {
    (b[at] as u32) | ((b[at + 1] as u32) << 8u32) | ((b[at + 2] as u32) << 16u32) | ((b[at + 3] as u32) << 24u32)
}

/// `q` holds the fields of the quote body `b`: the quote header, then the
/// enclave report with its measurements, product, security version and
/// report data.
pub open spec fn quote_body_of(b: Seq<u8>, q: QuoteBody) -> bool {
    &&& b.len() >= QUOTE_BODY_LEN
    &&& q.version == le16(b, 0)
    &&& q.sign_type == le16(b, 2)
    &&& q.epid_group_id == le32(b, 4)
    &&& q.qe_svn == le16(b, 8)
    &&& q.pce_svn == le16(b, 10)
    &&& q.mr_enclave@ == b.subrange(112, 144)
    &&& q.mr_signer@ == b.subrange(176, 208)
    &&& q.isv_prod_id == le16(b, 304)
    &&& q.isv_svn == le16(b, 306)
    &&& q.report_data@ == b.subrange(REPORT_DATA_OFFSET as int, QUOTE_BODY_LEN as int)
}

fn read_le16(b: &[u8], at: usize) -> (r: u16)
    requires
        at + 2 <= b@.len(),
    ensures
        r == le16(b@, at as int),
{
    (b[at] as u16) | ((b[at + 1] as u16) << 8u16)
}

fn read_le32(b: &[u8], at: usize) -> (r: u32)
    requires
        at + 4 <= b@.len(),
    ensures
        r == le32(b@, at as int),
{
    (b[at] as u32) | ((b[at + 1] as u32) << 8u32) | ((b[at + 2] as u32) << 16u32) | ((b[at + 3] as u32) << 24u32)
}

impl QuoteBody {
    /// Reads a quote body; fails when it is too short.
    pub fn parse_from(b: &[u8]) -> (r: Result<QuoteBody, AttestationError>)
        ensures
            r is Ok <==> b@.len() >= QUOTE_BODY_LEN,
            r is Err ==> r == Err::<QuoteBody, AttestationError>(AttestationError::ReportParseError),
            r matches Ok(q) ==> quote_body_of(b@, q),
    {
        if b.len() < QUOTE_BODY_LEN {
            return Err(AttestationError::ReportParseError);
        }
        Ok(QuoteBody {
            version: read_le16(b, 0),
            sign_type: read_le16(b, 2),
            epid_group_id: read_le32(b, 4),
            qe_svn: read_le16(b, 8),
            pce_svn: read_le16(b, 10),
            mr_enclave: copy_range(b, 112, 144),
            mr_signer: copy_range(b, 176, 208),
            isv_prod_id: read_le16(b, 304),
            isv_svn: read_le16(b, 306),
            report_data: copy_range(b, REPORT_DATA_OFFSET, QUOTE_BODY_LEN),
        })
    }

    /// The identity key that the quote asserts: the first half of its report
    /// data.
    pub fn owner_key(&self) -> (r: Vec<u8>)
        requires
            self.report_data@.len() == REPORT_DATA_LEN,
        ensures
            r@ == self.report_data@.subrange(0, IDENTITY_KEY_LEN as int),
    {
        copy_range(self.report_data.as_slice(), 0, IDENTITY_KEY_LEN)
    }
}

// ---------------------------------------------------------------------------
// Reports
// ---------------------------------------------------------------------------

/// A signed attestation report: the report JSON, its signature and the
/// signer's DER certificate.
pub struct EndorsedEpidAttestationReport {
    pub report: String,
    pub signature: Vec<u8>,
    pub cert: Vec<u8>,
}

/// What a report is checked against.
pub struct AttestationPolicy {
    /// DER certificate of the trust anchor.
    pub root_cert: Vec<u8>,
    /// DER certificate between the anchor and the report signer.
    pub intermediate_cert: Vec<u8>,
    /// Time (seconds since the Unix epoch) at which certificates must be
    /// valid.
    pub reference_time: u64,
    pub status_policy: StatusPolicy,
    /// Advisory ids that an accepted platform may carry.
    pub allowed_advisories: Vec<String>,
}

/// What a report JSON says. Reading it proves nothing about who wrote it:
/// only a `ValidatedEpidAttestation` carries that.
pub struct ReportContents {
    pub sgx_quote_status: QuoteStatus,
    pub sgx_quote_body: QuoteBody,
    pub platform_info_blob: Option<Vec<u8>>,
    pub advisory_ids: Vec<String>,
}

/// The contents of a report whose certificate chain and signature verified.
/// Its field is private: `EndorsedEpidAttestationReport::validate_report` is
/// the only way to obtain one.
pub struct ValidatedEpidAttestation {
    contents: ReportContents,
}

impl View for ValidatedEpidAttestation {
    type V = ReportContents;

    closed spec fn view(&self) -> ReportContents {
        self.contents
    }
}

/// The quote body of a report JSON, decoded from base64, if it is there.
pub open spec fn report_quote_raw(text: Seq<char>) -> Option<Seq<u8>> {
    match json_str_member(text, "isvEnclaveQuoteBody"@) {
        Some(q) => base64_decoded(encode_utf8(q)),
        None => None,
    }
}

/// Whether a report JSON can be read: version 4, a hex platform blob if a
/// string one is there, a status, a base64 quote body long enough, and
/// advisories that are a list of strings if they are there.
pub open spec fn report_well_formed(text: Seq<char>) -> bool {
    &&& json_u64_member(text, "version"@) == Some(REPORT_VERSION)
    &&& (json_str_member(text, "platformInfoBlob"@) matches Some(blob) ==> {
        let b = encode_utf8(blob);
        b.len() % 2 == 0 && all_hex_digits(b)
    })
    &&& json_str_member(text, "isvEnclaveQuoteStatus"@) is Some
    &&& report_quote_raw(text) matches Some(raw) && raw.len() >= QUOTE_BODY_LEN
    &&& json_str_list_member(text, "advisoryIDs"@) != Some(None::<Seq<Seq<char>>>)
}

/// `c` holds what the report JSON says.
pub open spec fn validated_from(text: Seq<char>, c: ReportContents) -> bool {
    &&& c.sgx_quote_status == status_of(encode_utf8(json_str_member(text, "isvEnclaveQuoteStatus"@)->0))
    &&& quote_body_of(report_quote_raw(text)->0, c.sgx_quote_body)
    &&& match json_str_member(text, "platformInfoBlob"@) {
        Some(blob) => c.platform_info_blob matches Some(p) && p@ == hex_bytes(encode_utf8(blob)),
        None => c.platform_info_blob is None,
    }
    &&& texts(c.advisory_ids@) == match json_str_list_member(text, "advisoryIDs"@) {
        Some(Some(l)) => l,
        _ => Seq::empty(),
    }
}

/// The verdict of the status check on a report's contents.
pub open spec fn report_verdict(c: ReportContents, policy: AttestationPolicy) -> Result<NodeAuthResult, NodeAuthResult> {
    quote_status_verdict(
        c.sgx_quote_status,
        advisories_allowed(texts(c.advisory_ids@), texts(policy.allowed_advisories@)),
        policy.status_policy,
    )
}

impl ReportContents {
    /// Reads a report JSON: the version must be 4 exactly; the optional
    /// platform blob is hex; the status and the base64 quote body are
    /// required; advisories default to none.
    pub fn parse(report: &str) -> (r: Result<ReportContents, AttestationError>)
        ensures
            r is Ok <==> report_well_formed(report@),
            r is Err ==> r == Err::<ReportContents, AttestationError>(AttestationError::ReportParseError),
            r matches Ok(c) ==> validated_from(report@, c),
    {
        match json_u64(report, "version") {
            Some(version) => {
                if version != REPORT_VERSION {
                    return Err(AttestationError::ReportParseError);
                }
            },
            None => {
                return Err(AttestationError::ReportParseError);
            },
        }
        let platform_info_blob = match json_str(report, "platformInfoBlob") {
            Some(blob) => match hex_decode(blob.as_str().as_bytes()) {
                Some(b) => Some(b),
                None => {
                    return Err(AttestationError::ReportParseError);
                },
            },
            None => None,
        };
        let sgx_quote_status = match json_str(report, "isvEnclaveQuoteStatus") {
            Some(status) => QuoteStatus::from_status_text(status.as_str()),
            None => {
                return Err(AttestationError::ReportParseError);
            },
        };
        let sgx_quote_body = match json_str(report, "isvEnclaveQuoteBody") {
            Some(encoded) => match base64_decode(encoded.as_str().as_bytes()) {
                Some(raw) => QuoteBody::parse_from(raw.as_slice())?,
                None => {
                    return Err(AttestationError::ReportParseError);
                },
            },
            None => {
                return Err(AttestationError::ReportParseError);
            },
        };
        let advisory_ids = match json_str_list(report, "advisoryIDs") {
            Some(Some(ids)) => ids,
            Some(None) => {
                return Err(AttestationError::ReportParseError);
            },
            None => Vec::new(),
        };
        proof {
            assert(texts(advisory_ids@) =~= match json_str_list_member(report@, "advisoryIDs"@) {
                Some(Some(l)) => l,
                _ => Seq::empty(),
            });
        }
        Ok(ReportContents { sgx_quote_status, sgx_quote_body, platform_info_blob, advisory_ids })
    }

    /// Applies the quote-status policy: statuses outside the accepted set are
    /// rejected with the outcome that names them; an accepted status with
    /// advisories outside the allow-list is rejected under the strict policy
    /// and only flagged under the lenient one.
    pub fn status_verdict(&self, policy: &AttestationPolicy) -> (r: Result<NodeAuthResult, NodeAuthResult>)
        ensures
            r == report_verdict(*self, *policy),
    {
        let s = self.sgx_quote_status;
        let accepted = match s {
            QuoteStatus::OK | QuoteStatus::SwHardeningNeeded | QuoteStatus::ConfigurationAndSwHardeningNeeded => true,
            QuoteStatus::GroupOutOfDate => policy.status_policy == StatusPolicy::Lenient,
            _ => false,
        };
        if !accepted {
            return Err(NodeAuthResult::from_status(s));
        }
        if check_advisories(&self.advisory_ids, &policy.allowed_advisories) {
            Ok(NodeAuthResult::Success)
        } else if policy.status_policy == StatusPolicy::Lenient {
            // Allowed off the production network: the platform is flagged only.
            Ok(NodeAuthResult::VulnerableAdvisories)
        } else {
            Err(NodeAuthResult::VulnerableAdvisories)
        }
    }
}

/// Applies the quote-status policy to a validated report.
pub fn verify_quote_status(report: &ValidatedEpidAttestation, policy: &AttestationPolicy) -> (r: Result<NodeAuthResult, NodeAuthResult>)
    ensures
        r == report_verdict(report@, *policy),
{
    report.contents.status_verdict(policy)
}

impl ValidatedEpidAttestation {
    /// Reads the report of an endorsed report whose chain and signature the
    /// caller has verified.
    pub(crate) fn from_endorsed_report(endorsed_report: &EndorsedEpidAttestationReport) -> (r: Result<ValidatedEpidAttestation, AttestationError>)
        ensures
            r is Ok <==> report_well_formed(endorsed_report.report@),
            r is Err ==> r == Err::<ValidatedEpidAttestation, AttestationError>(AttestationError::ReportParseError),
            r matches Ok(v) ==> validated_from(endorsed_report.report@, v@),
    {
        let contents = ReportContents::parse(endorsed_report.report.as_str())?;
        Ok(ValidatedEpidAttestation { contents })
    }

    /// The verified contents of the report.
    pub fn contents(&self) -> (r: &ReportContents)
        ensures
            *r == self@,
    {
        &self.contents
    }

    /// The quote status.
    pub fn sgx_quote_status(&self) -> (r: QuoteStatus)
        ensures
            r == self@.sgx_quote_status,
    {
        self.contents.sgx_quote_status
    }

    /// The quote body.
    pub fn sgx_quote_body(&self) -> (r: &QuoteBody)
        ensures
            *r == self@.sgx_quote_body,
    {
        &self.contents.sgx_quote_body
    }

    /// The platform info blob, if the report had one.
    pub fn platform_info_blob(&self) -> (r: &Option<Vec<u8>>)
        ensures
            *r == self@.platform_info_blob,
    {
        &self.contents.platform_info_blob
    }

    /// The advisory ids of the platform.
    pub fn advisory_ids(&self) -> (r: &Vec<String>)
        ensures
            *r == self@.advisory_ids,
    {
        &self.contents.advisory_ids
    }

    /// Applies the quote-status policy to the validated report. The check of
    /// the enclave report itself against an expected enclave identity is not
    /// made here: the crates that define that identity are not available.
    pub fn verify(&self, policy: &AttestationPolicy) -> (r: Result<(), NodeAuthResult>)
        ensures
            r is Ok <==> report_verdict(self@, *policy) is Ok,
            r matches Err(e) ==> report_verdict(self@, *policy) == Err::<NodeAuthResult, NodeAuthResult>(e),
    {
        verify_quote_status(self, policy)?;
        Ok(())
    }
}

impl EndorsedEpidAttestationReport {
    /// Checks the signer certificate's chain at the policy's reference time
    /// and the report signature, then reads the report. This is the only way
    /// to obtain a `ValidatedEpidAttestation`.
    pub fn validate_report(&self, policy: &AttestationPolicy) -> (r: Result<ValidatedEpidAttestation, AttestationError>)
        ensures
            r is Ok ==> cert_chain_valid(self.cert@, policy.root_cert@, policy.intermediate_cert@, policy.reference_time),
            r is Ok ==> report_signature_valid(self.cert@, encode_utf8(self.report@), self.signature@),
            !cert_chain_valid(self.cert@, policy.root_cert@, policy.intermediate_cert@, policy.reference_time)
                ==> r == Err::<ValidatedEpidAttestation, AttestationError>(AttestationError::VerificationError),
            cert_chain_valid(self.cert@, policy.root_cert@, policy.intermediate_cert@, policy.reference_time)
                && !report_signature_valid(self.cert@, encode_utf8(self.report@), self.signature@)
                ==> r == Err::<ValidatedEpidAttestation, AttestationError>(AttestationError::VerificationError),
            cert_chain_valid(self.cert@, policy.root_cert@, policy.intermediate_cert@, policy.reference_time)
                && report_signature_valid(self.cert@, encode_utf8(self.report@), self.signature@) ==> {
                &&& r is Ok <==> report_well_formed(self.report@)
                &&& r is Err ==> r == Err::<ValidatedEpidAttestation, AttestationError>(AttestationError::ReportParseError)
                &&& r matches Ok(v) ==> validated_from(self.report@, v@)
            },
    {
        if !verify_cert_chain(
            self.cert.as_slice(),
            policy.root_cert.as_slice(),
            policy.intermediate_cert.as_slice(),
            policy.reference_time,
        ) {
            return Err(AttestationError::VerificationError);
        }
        if !verify_report_signature(self.cert.as_slice(), self.report.as_str().as_bytes(), self.signature.as_slice()) {
            return Err(AttestationError::VerificationError);
        }
        ValidatedEpidAttestation::from_endorsed_report(self)
    }

    /// Verifies the report end to end and returns the identity key that the
    /// quote asserts. Any failed check rejects the whole report.
    pub fn verify(&self, policy: &AttestationPolicy) -> (r: Result<Vec<u8>, AttestationError>)
        ensures
            r is Ok <==> {
                &&& cert_chain_valid(self.cert@, policy.root_cert@, policy.intermediate_cert@, policy.reference_time)
                &&& report_signature_valid(self.cert@, encode_utf8(self.report@), self.signature@)
                &&& report_well_formed(self.report@)
                &&& exists|c: ReportContents|
                    validated_from(self.report@, c) && #[trigger] report_verdict(c, *policy) is Ok
            },
            r is Err && cert_chain_valid(self.cert@, policy.root_cert@, policy.intermediate_cert@, policy.reference_time)
                && report_signature_valid(self.cert@, encode_utf8(self.report@), self.signature@)
                && !report_well_formed(self.report@)
                ==> r == Err::<Vec<u8>, AttestationError>(AttestationError::ReportParseError),
            r matches Ok(key) ==> key@ == report_quote_raw(self.report@)->0.subrange(
                REPORT_DATA_OFFSET as int,
                REPORT_DATA_OFFSET + IDENTITY_KEY_LEN,
            ),
    {
        let validated = self.validate_report(policy)?;
        match verify_quote_status(&validated, policy) {
            Ok(_) => {},
            Err(_) => {
                return Err(AttestationError::VerificationError);
            },
        }
        let key = validated.sgx_quote_body().owner_key();
        proof {
            let raw = report_quote_raw(self.report@)->0;
            assert(key@ =~= raw.subrange(REPORT_DATA_OFFSET as int, REPORT_DATA_OFFSET + IDENTITY_KEY_LEN));
        }
        Ok(key)
    }
}

// ---------------------------------------------------------------------------
// Laws
// ---------------------------------------------------------------------------

/// A report whose JSON is not of version 4 (another number, or no version)
/// is never well formed; so, once its chain and signature verify, `verify`
/// rejects it with `ReportParseError`.
pub proof fn lemma_version_gate(text: Seq<char>)
    requires
        json_u64_member(text, "version"@) != Some(REPORT_VERSION),
    ensures
        !report_well_formed(text),
{
}

/// An out-of-date platform is rejected under the strict policy, naming its
/// status, and accepted under the lenient one, flagged when its advisories
/// are not all allowed.
pub proof fn lemma_group_out_of_date_policy(advisories_ok: bool)
    ensures
        quote_status_verdict(QuoteStatus::GroupOutOfDate, advisories_ok, StatusPolicy::Strict)
            == Err::<NodeAuthResult, NodeAuthResult>(NodeAuthResult::GroupOutOfDate),
        quote_status_verdict(QuoteStatus::GroupOutOfDate, advisories_ok, StatusPolicy::Lenient)
            == Ok::<NodeAuthResult, NodeAuthResult>(
            if advisories_ok {
                NodeAuthResult::Success
            } else {
                NodeAuthResult::VulnerableAdvisories
            },
        ),
{
}

/// A status text that names none of the known statuses is rejected under
/// both policies.
pub proof fn lemma_unknown_status_rejected(text: Seq<u8>, advisories_ok: bool, policy: StatusPolicy)
    requires
        text != status_ok(),
        text != status_signature_invalid(),
        text != status_group_revoked(),
        text != status_signature_revoked(),
        text != status_key_revoked(),
        text != status_sigrl_version_mismatch(),
        text != status_group_out_of_date(),
        text != status_configuration_needed(),
        text != status_sw_hardening_needed(),
        text != status_configuration_and_sw_hardening_needed(),
    ensures
        status_of(text) == QuoteStatus::UnknownBadStatus,
        quote_status_verdict(status_of(text), advisories_ok, policy)
            == Err::<NodeAuthResult, NodeAuthResult>(NodeAuthResult::BadQuoteStatus),
{
}

} // verus!
