use secret_io::attestation::{
    AttestationError, AttestationPolicy, EndorsedEpidAttestationReport, NodeAuthResult, QuoteBody, QuoteStatus,
    ReportContents, StatusPolicy, REFERENCE_TIME_SECS,
};
use secret_io::msg::{ExecuteMsg, InstantiateMsg};

fn quote_body() -> Vec<u8> {
    let mut q = vec![0u8; 432];
    q[0] = 2; // version
    q[2] = 1; // sign type
    q[4..8].copy_from_slice(&[0x78, 0x56, 0x34, 0x12]);
    for (i, b) in q[112..144].iter_mut().enumerate() {
        *b = i as u8;
    }
    q[304] = 5;
    q[306] = 9;
    for (i, b) in q[368..432].iter_mut().enumerate() {
        *b = 100 + i as u8;
    }
    q
}

fn report_json(version: &str, status: &str, extra: &str) -> String {
    format!(
        r#"{{{}"isvEnclaveQuoteStatus":"{}","isvEnclaveQuoteBody":"{}"{}}}"#,
        version,
        status,
        base64::encode(quote_body()),
        extra
    )
}

fn endorsed(report: String) -> EndorsedEpidAttestationReport {
    EndorsedEpidAttestationReport { report, signature: vec![1, 2, 3], cert: vec![4, 5, 6] }
}

fn policy(status_policy: StatusPolicy, allowed: &[&str]) -> AttestationPolicy {
    AttestationPolicy {
        root_cert: vec![],
        intermediate_cert: vec![],
        reference_time: REFERENCE_TIME_SECS,
        status_policy,
        allowed_advisories: allowed.iter().map(|s| s.to_string()).collect(),
    }
}

fn contents(status: QuoteStatus, advisories: &[&str]) -> ReportContents {
    ReportContents {
        sgx_quote_status: status,
        sgx_quote_body: QuoteBody::parse_from(&quote_body()).unwrap(),
        platform_info_blob: None,
        advisory_ids: advisories.iter().map(|s| s.to_string()).collect(),
    }
}

#[test]
fn report_of_version_four_is_read() {
    let r = endorsed(report_json(r#""version":4,"#, "GROUP_OUT_OF_DATE", r#","platformInfoBlob":"0a0B","advisoryIDs":["INTEL-SA-00334"]"#));
    let v = ReportContents::parse(&r.report).unwrap();
    assert_eq!(v.sgx_quote_status, QuoteStatus::GroupOutOfDate);
    assert_eq!(v.platform_info_blob, Some(vec![0x0a, 0x0b]));
    assert_eq!(v.advisory_ids, vec!["INTEL-SA-00334".to_string()]);
    let q = v.sgx_quote_body;
    assert_eq!(q.version, 2);
    assert_eq!(q.sign_type, 1);
    assert_eq!(q.epid_group_id, 0x12345678);
    assert_eq!(q.mr_enclave, (0u8..32).collect::<Vec<u8>>());
    assert_eq!(q.isv_prod_id, 5);
    assert_eq!(q.isv_svn, 9);
    assert_eq!(q.report_data, (100u8..164).collect::<Vec<u8>>());
    assert_eq!(q.owner_key(), (100u8..132).collect::<Vec<u8>>());
}

#[test]
fn advisories_default_to_none() {
    let r = endorsed(report_json(r#""version":4,"#, "OK", ""));
    let v = ReportContents::parse(&r.report).unwrap();
    assert!(v.advisory_ids.is_empty());
    assert!(v.platform_info_blob.is_none());
    assert_eq!(v.sgx_quote_status, QuoteStatus::OK);
}

#[test]
fn version_three_is_rejected() {
    let r = endorsed(report_json(r#""version":3,"#, "OK", ""));
    assert!(matches!(ReportContents::parse(&r.report), Err(AttestationError::ReportParseError)));
}

#[test]
fn missing_version_is_rejected() {
    let r = endorsed(report_json("", "OK", ""));
    assert!(matches!(ReportContents::parse(&r.report), Err(AttestationError::ReportParseError)));
}

#[test]
fn malformed_fields_are_rejected() {
    let bad_blob = endorsed(report_json(r#""version":4,"#, "OK", r#","platformInfoBlob":"0g""#));
    assert!(matches!(ReportContents::parse(&bad_blob.report), Err(AttestationError::ReportParseError)));
    let bad_advisories = endorsed(report_json(r#""version":4,"#, "OK", r#","advisoryIDs":[1,2]"#));
    assert!(matches!(ReportContents::parse(&bad_advisories.report), Err(AttestationError::ReportParseError)));
    let short_quote = endorsed(format!(r#"{{"version":4,"isvEnclaveQuoteStatus":"OK","isvEnclaveQuoteBody":"{}"}}"#, base64::encode([0u8; 100])));
    assert!(matches!(ReportContents::parse(&short_quote.report), Err(AttestationError::ReportParseError)));
    let bad_base64 = endorsed(r#"{"version":4,"isvEnclaveQuoteStatus":"OK","isvEnclaveQuoteBody":"***"}"#.to_string());
    assert!(matches!(ReportContents::parse(&bad_base64.report), Err(AttestationError::ReportParseError)));
    let not_json = endorsed("not json".to_string());
    assert!(matches!(ReportContents::parse(&not_json.report), Err(AttestationError::ReportParseError)));
}

#[test]
fn bad_certificate_is_rejected_first() {
    let r = endorsed(report_json(r#""version":4,"#, "OK", ""));
    let p = policy(StatusPolicy::Strict, &[]);
    assert!(matches!(r.validate_report(&p), Err(AttestationError::VerificationError)));
    assert!(matches!(r.verify(&p), Err(AttestationError::VerificationError)));
}

#[test]
fn group_out_of_date_depends_on_policy() {
    let v = contents(QuoteStatus::GroupOutOfDate, &[]);
    assert_eq!(v.status_verdict(&policy(StatusPolicy::Strict, &[])), Err(NodeAuthResult::GroupOutOfDate));
    assert_eq!(v.status_verdict(&policy(StatusPolicy::Lenient, &[])), Ok(NodeAuthResult::Success));
    let flagged = contents(QuoteStatus::GroupOutOfDate, &["INTEL-SA-00001"]);
    assert_eq!(flagged.status_verdict(&policy(StatusPolicy::Lenient, &[])), Ok(NodeAuthResult::VulnerableAdvisories));
}

#[test]
fn unknown_status_is_rejected_by_both_policies() {
    let s = QuoteStatus::from_status_text("SOMETHING_NEW");
    assert_eq!(s, QuoteStatus::UnknownBadStatus);
    let v = contents(s, &[]);
    assert_eq!(v.status_verdict(&policy(StatusPolicy::Strict, &[])), Err(NodeAuthResult::BadQuoteStatus));
    assert_eq!(v.status_verdict(&policy(StatusPolicy::Lenient, &[])), Err(NodeAuthResult::BadQuoteStatus));
}

#[test]
fn advisories_must_be_allowed_under_strict_policy() {
    let v = contents(QuoteStatus::SwHardeningNeeded, &["INTEL-SA-00334", "INTEL-SA-00615"]);
    assert_eq!(
        v.status_verdict(&policy(StatusPolicy::Strict, &["INTEL-SA-00334", "INTEL-SA-00615"])),
        Ok(NodeAuthResult::Success)
    );
    assert_eq!(
        v.status_verdict(&policy(StatusPolicy::Strict, &["INTEL-SA-00334"])),
        Err(NodeAuthResult::VulnerableAdvisories)
    );
}

#[test]
fn revoked_status_names_itself() {
    let v = contents(QuoteStatus::from_status_text("KEY_REVOKED"), &[]);
    assert_eq!(v.status_verdict(&policy(StatusPolicy::Lenient, &[])), Err(NodeAuthResult::KeyRevoked));
}

#[test]
fn status_texts() {
    assert_eq!(QuoteStatus::from_status_text("OK"), QuoteStatus::OK);
    assert_eq!(QuoteStatus::from_status_text("CONFIGURATION_AND_SW_HARDENING_NEEDED"), QuoteStatus::ConfigurationAndSwHardeningNeeded);
    assert_eq!(QuoteStatus::from_status_text("SW_HARDENING_NEEDED"), QuoteStatus::SwHardeningNeeded);
    assert_eq!(QuoteStatus::from_status_text("ok"), QuoteStatus::UnknownBadStatus);
}

#[test]
fn quote_body_too_short() {
    assert!(matches!(QuoteBody::parse_from(&[0u8; 431]), Err(AttestationError::ReportParseError)));
}

#[test]
fn test_contract_messages() {
    assert_eq!(ExecuteMsg::Evaporate { amount: 3 }, ExecuteMsg::Evaporate { amount: 3 });
    assert_ne!(ExecuteMsg::UseExact { amount: 3 }, ExecuteMsg::CheckGas {});
    assert_eq!(InstantiateMsg::Nop {}, InstantiateMsg::Nop {});
}
