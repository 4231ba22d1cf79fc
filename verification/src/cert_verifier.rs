//! The certificate verifier: peer validation is delegated to a remote
//! attestation service, and the peer's evidence claims are captured into a
//! result slot on the way.
//!
//! The remote call itself is network I/O made by the embedding (it runs the
//! attestation client on a blocking-capable execution context and owns the
//! lock around a shared verifier instance); everything the call reports comes
//! back here as a [`RemoteReport`], and every decision on it is made here.
//! One verifier instance must be scoped to one connection at a time:
//! `verify_cert` takes the instance exclusively, so concurrent handshakes
//! cannot interleave their slot writes on a single instance.

use vstd::prelude::*;

use crate::attestation::{claims_view, AttestationResult, Claim};

verus! {

/// Remote-attestation configuration: where the attestation service lives,
/// how it is reached, which policies apply, and which local roots of trust
/// secure the channel to the service itself. Fixed at verifier creation.
#[derive(Debug)]
pub struct VerifyArgs {
    /// Address of the attestation service.
    pub as_addr: String,
    /// Whether the service speaks RPC rather than HTTP.
    pub as_is_grpc: bool,
    /// Identifiers of the policies the service evaluates evidence against.
    pub policy_ids: Vec<String>,
    /// Paths of locally trusted root certificates for the service channel.
    pub trusted_certs_paths: Vec<String>,
}

/// Outcome of one remote policy evaluation.
#[derive(Debug, PartialEq, Eq, Structural)]
pub enum VerifyPolicyOutput {
    Passed,
    Failed,
}

/// How the peer's evidence is verified: sent to an attestation service at
/// the given address, over RPC or HTTP.
#[derive(Debug)]
pub enum CocoVerifyMode {
    Evidence { as_addr: String, as_is_grpc: bool },
}

/// The policy descriptor handed to the remote attestation call, built from
/// [`VerifyArgs`] for each verification.
#[derive(Debug)]
pub struct VerifyPolicy {
    pub verify_mode: CocoVerifyMode,
    pub policy_ids: Vec<String>,
    pub trusted_certs_paths: Vec<String>,
}

/// How one remote attestation call ended: with a policy evaluation, or with
/// a transport or protocol failure before any evaluation was reported.
#[derive(Debug)]
pub enum RemoteVerdict {
    Evaluated(VerifyPolicyOutput),
    TransportFailure(String),
}

/// Everything one remote attestation call reported back: the claims the
/// capture callback was handed (`None` when the call failed before the
/// callback could fire), and the verdict the call ended with.
#[derive(Debug)]
pub struct RemoteReport {
    pub claims: Option<Vec<Claim>>,
    pub verdict: RemoteVerdict,
}

/// Why a certificate was not accepted.
#[derive(Debug)]
pub enum VerificationError {
    /// The remote policy evaluation explicitly failed.
    ClaimsRejected,
    /// The attestation service could not be reached or used.
    RemoteAttestationFailure(String),
}

/// A certificate verifier bound to one remote-attestation configuration,
/// with the result slot that carries the captured claims from the handshake
/// layer to the application layer.
#[derive(Debug)]
pub struct CoCoCommonCertVerifier {
    verify: VerifyArgs,
    attestation_result: Option<AttestationResult>,
}

/// The claim mapping held in a result slot, if any.
pub open spec fn slot_view(slot: Option<AttestationResult>) -> Option<Seq<(Seq<char>, Seq<char>)>> {
    match slot {
        Some(a) => Some(a@),
        None => None,
    }
}

/// How one `verify_cert` call relates its pre-state, post-state, report and
/// result: capture is unconditional (the slot afterwards holds exactly the
/// reported claims, and is untouched when no claims were reported), the
/// configuration never changes, and the verdict alone decides the result.
pub open spec fn verify_cert_rel(
    pre: CoCoCommonCertVerifier,
    post: CoCoCommonCertVerifier,
    report: RemoteReport,
    r: Result<(), VerificationError>,
) -> bool {
    &&& post.args() == pre.args()
    &&& match report.claims {
        Some(c) => slot_view(post.slot()) == Some(claims_view(c@)),
        None => post.slot() == pre.slot(),
    }
    &&& match report.verdict {
        RemoteVerdict::Evaluated(VerifyPolicyOutput::Passed) => r is Ok,
        RemoteVerdict::Evaluated(VerifyPolicyOutput::Failed) => r == Err::<(), _>(
            VerificationError::ClaimsRejected,
        ),
        RemoteVerdict::TransportFailure(d) => r == Err::<(), _>(
            VerificationError::RemoteAttestationFailure(d),
        ),
    }
}

impl CoCoCommonCertVerifier {
    /// The verifier's remote-attestation configuration.
    pub closed spec fn args(&self) -> VerifyArgs {
        self.verify
    }

    /// The current contents of the result slot.
    pub closed spec fn slot(&self) -> Option<AttestationResult> {
        self.attestation_result
    }

    /// Pure construction: no I/O, and an empty result slot.
    pub fn new(verify: VerifyArgs) -> (r: Self)
        ensures
            r.args() == verify,
            r.slot() is None,
    {
        Self { verify, attestation_result: None }
    }

    /// Reads the slot, cloning the current value out. What the caller gets
    /// is exactly what the latest completed verification captured.
    pub fn get_attestation_result(&self) -> (r: Option<AttestationResult>)
        ensures
            slot_view(r) == slot_view(self.slot()),
    {
        match &self.attestation_result {
            Some(a) => Some(a.clone()),
            None => None,
        }
    }

    /// Builds the remote-attestation policy descriptor from the verifier's
    /// configuration, field for field.
    pub fn build_verify_policy(&self) -> (p: VerifyPolicy)
        ensures
            (p.verify_mode matches CocoVerifyMode::Evidence { as_addr, as_is_grpc }
                && as_addr == self.args().as_addr && as_is_grpc == self.args().as_is_grpc),
            p.policy_ids@ == self.args().policy_ids@,
            p.trusted_certs_paths@ == self.args().trusted_certs_paths@,
    {
        let policy_ids = self.verify.policy_ids.clone();
        let trusted_certs_paths = self.verify.trusted_certs_paths.clone();
        proof {
            lemma_string_vec_clone_eq(self.verify.policy_ids@, policy_ids@);
            lemma_string_vec_clone_eq(self.verify.trusted_certs_paths@, trusted_certs_paths@);
        }
        VerifyPolicy {
            verify_mode: CocoVerifyMode::Evidence {
                as_addr: self.verify.as_addr.clone(),
                as_is_grpc: self.verify.as_is_grpc,
            },
            policy_ids,
            trusted_certs_paths,
        }
    }

    /// The capture-only claims-check callback: records the parsed claims in
    /// the result slot, unconditionally, and always reports `Passed` — the
    /// claims are not checked here, that is left to the attestation service.
    pub fn record_claims(&mut self, claims: Vec<Claim>) -> (out: VerifyPolicyOutput)
        ensures
            slot_view(final(self).slot()) == Some(claims_view(claims@)),
            final(self).args() == old(self).args(),
            out == VerifyPolicyOutput::Passed,
    {
        self.attestation_result = Some(AttestationResult::from_claims(claims));
        VerifyPolicyOutput::Passed
    }

    /// One certificate verification, given what the remote attestation call
    /// reported for the peer's certificate: the reported claims are captured
    /// into the result slot (even when the policy failed), and the verdict is
    /// mapped onto the verifier's result — `Passed` is success, `Failed` is
    /// [`VerificationError::ClaimsRejected`], and a transport failure is
    /// [`VerificationError::RemoteAttestationFailure`] wrapping the cause.
    pub fn verify_cert(&mut self, report: RemoteReport) -> (r: Result<(), VerificationError>)
        ensures
            verify_cert_rel(*old(self), *final(self), report, r),
    {
        if let Some(c) = report.claims {
            let _ = self.record_claims(c);
        }
        match report.verdict {
            RemoteVerdict::Evaluated(VerifyPolicyOutput::Passed) => Ok(()),
            RemoteVerdict::Evaluated(VerifyPolicyOutput::Failed) => Err(
                VerificationError::ClaimsRejected,
            ),
            RemoteVerdict::TransportFailure(d) => Err(
                VerificationError::RemoteAttestationFailure(d),
            ),
        }
    }
}

/// The message a verification error aborts the TLS handshake with, exactly
/// as the TLS stack reports it.
pub fn verification_error_message(err: &VerificationError) -> (r: String)
    ensures
        err is ClaimsRejected ==> r@ == "Verify failed because of claims"@,
        err matches VerificationError::RemoteAttestationFailure(cause) ==> r@
            == "Verify failed with err: "@ + cause@,
{
    match err {
        VerificationError::ClaimsRejected => String::from_str("Verify failed because of claims"),
        VerificationError::RemoteAttestationFailure(cause) => String::from_str(
            "Verify failed with err: ",
        ).concat(cause.as_str()),
    }
}

/// A sequence of cloned strings equals the sequence it was cloned from.
proof fn lemma_string_vec_clone_eq(orig: Seq<String>, copy: Seq<String>)
    requires
        copy.len() == orig.len(),
        forall|i: int| #![all_triggers] 0 <= i < orig.len() ==> cloned::<String>(orig[i], copy[i]),
    ensures
        copy == orig,
{
    assert forall|i: int| 0 <= i < orig.len() implies copy[i] == orig[i] by {
        assert(cloned::<String>(orig[i], copy[i]));
    }
    assert(copy =~= orig);
}

/// Law: for claims the remote policy accepted, `verify_cert` succeeds and a
/// subsequent `get_attestation_result` observes exactly the parsed claims.
pub proof fn lemma_accepted_claims_observed(
    pre: CoCoCommonCertVerifier,
    post: CoCoCommonCertVerifier,
    claims: Vec<Claim>,
    r: Result<(), VerificationError>,
)
    requires
        verify_cert_rel(
            pre,
            post,
            RemoteReport {
                claims: Some(claims),
                verdict: RemoteVerdict::Evaluated(VerifyPolicyOutput::Passed),
            },
            r,
        ),
    ensures
        r is Ok,
        slot_view(post.slot()) == Some(claims_view(claims@)),
{
}

/// Law: for claims the remote policy marked failed, `verify_cert` returns
/// `ClaimsRejected`, and the captured claims are not thrown away — the slot
/// still reflects this latest attempt.
pub proof fn lemma_rejected_claims_still_captured(
    pre: CoCoCommonCertVerifier,
    post: CoCoCommonCertVerifier,
    claims: Vec<Claim>,
    r: Result<(), VerificationError>,
)
    requires
        verify_cert_rel(
            pre,
            post,
            RemoteReport {
                claims: Some(claims),
                verdict: RemoteVerdict::Evaluated(VerifyPolicyOutput::Failed),
            },
            r,
        ),
    ensures
        r == Err::<(), _>(VerificationError::ClaimsRejected),
        slot_view(post.slot()) == Some(claims_view(claims@)),
{
}

/// Law: the slot is replaced whole or not at all. After any `verify_cert`
/// call the slot holds either the previous value unchanged or exactly the
/// newly parsed claims — never a partial mixture. (Mutual exclusion of the
/// slot accesses themselves is the embedding's lock around the instance.)
pub proof fn lemma_slot_never_partial(
    pre: CoCoCommonCertVerifier,
    post: CoCoCommonCertVerifier,
    report: RemoteReport,
    r: Result<(), VerificationError>,
)
    requires
        verify_cert_rel(pre, post, report, r),
    ensures
        post.slot() == pre.slot() || (report.claims matches Some(c) && slot_view(post.slot())
            == Some(claims_view(c@))),
{
}

} // verus!
