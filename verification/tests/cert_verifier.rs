use tng_tunnel::attestation::Claim;
use tng_tunnel::cert_verifier::{
    verification_error_message, CoCoCommonCertVerifier, CocoVerifyMode, RemoteReport,
    RemoteVerdict, VerificationError, VerifyArgs, VerifyPolicyOutput,
};

fn default_args() -> VerifyArgs {
    VerifyArgs {
        as_addr: "http://192.168.1.254:8080/".to_string(),
        as_is_grpc: false,
        policy_ids: vec!["default".to_string()],
        trusted_certs_paths: vec!["/tmp/as-ca.pem".to_string()],
    }
}

fn sample_claims() -> Vec<Claim> {
    vec![
        Claim { name: "tee".to_string(), value: "tdx".to_string() },
        Claim { name: "report_data".to_string(), value: "aGVsbG8".to_string() },
    ]
}

#[test]
fn new_verifier_has_empty_slot() {
    let verifier = CoCoCommonCertVerifier::new(default_args());
    assert!(verifier.get_attestation_result().is_none());
}

#[test]
fn build_verify_policy_copies_the_configuration() {
    let verifier = CoCoCommonCertVerifier::new(default_args());
    let policy = verifier.build_verify_policy();
    let CocoVerifyMode::Evidence { as_addr, as_is_grpc } = policy.verify_mode;
    assert_eq!(as_addr, "http://192.168.1.254:8080/");
    assert!(!as_is_grpc);
    assert_eq!(policy.policy_ids, vec!["default".to_string()]);
    assert_eq!(policy.trusted_certs_paths, vec!["/tmp/as-ca.pem".to_string()]);
}

#[test]
fn accepted_claims_verify_and_are_observed() {
    let mut verifier = CoCoCommonCertVerifier::new(default_args());
    let report = RemoteReport {
        claims: Some(sample_claims()),
        verdict: RemoteVerdict::Evaluated(VerifyPolicyOutput::Passed),
    };
    let res = verifier.verify_cert(report);
    assert!(res.is_ok());
    let observed = verifier.get_attestation_result().expect("slot must be filled");
    let claims = observed.claims();
    assert_eq!(claims.len(), 2);
    assert_eq!(claims[0].name, "tee");
    assert_eq!(claims[0].value, "tdx");
    assert_eq!(claims[1].name, "report_data");
    assert_eq!(claims[1].value, "aGVsbG8");
}

#[test]
fn rejected_claims_give_claims_rejected_and_stay_captured() {
    let mut verifier = CoCoCommonCertVerifier::new(default_args());
    let report = RemoteReport {
        claims: Some(sample_claims()),
        verdict: RemoteVerdict::Evaluated(VerifyPolicyOutput::Failed),
    };
    let res = verifier.verify_cert(report);
    assert!(matches!(res, Err(VerificationError::ClaimsRejected)));
    let observed = verifier.get_attestation_result().expect("capture happens even on reject");
    assert_eq!(observed.claims()[0].name, "tee");
}

#[test]
fn unreachable_service_gives_remote_attestation_failure() {
    let mut verifier = CoCoCommonCertVerifier::new(default_args());
    let report = RemoteReport {
        claims: None,
        verdict: RemoteVerdict::TransportFailure("connection refused".to_string()),
    };
    let res = verifier.verify_cert(report);
    match res {
        Err(VerificationError::RemoteAttestationFailure(cause)) => {
            assert_eq!(cause, "connection refused");
        }
        other => panic!("expected RemoteAttestationFailure, got {:?}", other),
    }
    assert!(verifier.get_attestation_result().is_none());
}

#[test]
fn error_messages_match_the_handshake_abort_text() {
    let rejected = VerificationError::ClaimsRejected;
    assert_eq!(verification_error_message(&rejected), "Verify failed because of claims");
    let unreachable = VerificationError::RemoteAttestationFailure("no route".to_string());
    assert_eq!(verification_error_message(&unreachable), "Verify failed with err: no route");
}

#[test]
fn latest_attempt_wins_the_slot() {
    let mut verifier = CoCoCommonCertVerifier::new(default_args());
    let first = RemoteReport {
        claims: Some(sample_claims()),
        verdict: RemoteVerdict::Evaluated(VerifyPolicyOutput::Passed),
    };
    assert!(verifier.verify_cert(first).is_ok());
    let second = RemoteReport {
        claims: Some(vec![Claim { name: "tee".to_string(), value: "sgx".to_string() }]),
        verdict: RemoteVerdict::Evaluated(VerifyPolicyOutput::Passed),
    };
    assert!(verifier.verify_cert(second).is_ok());
    let observed = verifier.get_attestation_result().expect("slot must be filled");
    assert_eq!(observed.claims().len(), 1);
    assert_eq!(observed.claims()[0].value, "sgx");
}

#[test]
fn transport_failure_keeps_the_previous_capture() {
    let mut verifier = CoCoCommonCertVerifier::new(default_args());
    let first = RemoteReport {
        claims: Some(sample_claims()),
        verdict: RemoteVerdict::Evaluated(VerifyPolicyOutput::Passed),
    };
    assert!(verifier.verify_cert(first).is_ok());
    let second = RemoteReport {
        claims: None,
        verdict: RemoteVerdict::TransportFailure("timed out".to_string()),
    };
    assert!(second.claims.is_none());
    assert!(verifier.verify_cert(second).is_err());
    let observed = verifier.get_attestation_result().expect("previous capture stays");
    assert_eq!(observed.claims().len(), 2);
}
