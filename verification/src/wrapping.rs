//! Client-side decision logic of the tunnel upgrade handshake: building the
//! upgrade request, evaluating the response (out-of-band attestation
//! metadata first, then status), and tracking the one-attempt protocol
//! sequence. Sending the request and awaiting the protocol upgrade are
//! network I/O and belong to the embedding, which drives [`TunnelAttempt`]
//! with what came back.

use vstd::prelude::*;

use crate::attestation::AttestationResult;

verus! {

/// The response status a successful upgrade handshake must carry.
pub const TUNNEL_OK_STATUS: u16 = 200;

/// Why a tunnel attempt failed.
#[derive(Debug)]
pub enum TunnelError {
    /// The upgrade request could not be built or sent.
    RequestFailed(String),
    /// The server did not attach the required (possibly empty) attestation
    /// metadata to its response: a protocol violation.
    MissingAttestationMetadata,
    /// The response carried a non-success status; the status and a rendering
    /// of the full response are kept for diagnostics.
    UnexpectedStatus(u16, String),
    /// The protocol-level upgrade signal failed or never arrived.
    UpgradeFailed(String),
}

/// What the client read from one upgrade response. `metadata` is the
/// out-of-band attestation slot: `None` means the slot itself was absent (a
/// protocol violation), while `Some(None)` means the slot was present but no
/// attestation was performed — a valid, distinct outcome.
#[derive(Debug)]
pub struct TunnelResponse {
    pub status: u16,
    pub metadata: Option<Option<AttestationResult>>,
    /// A diagnostic rendering of the full response.
    pub detail: String,
}

/// Evaluates one upgrade response: the attestation metadata slot must be
/// present whatever the status says, and the status must be the success
/// status; the value carried by the slot is handed back as-is.
pub fn evaluate_tunnel_response(resp: TunnelResponse) -> (r: Result<
    Option<AttestationResult>,
    TunnelError,
>)
    ensures
        resp.metadata is None ==> r == Err::<Option<AttestationResult>, _>(
            TunnelError::MissingAttestationMetadata,
        ),
        resp.metadata is Some && resp.status != TUNNEL_OK_STATUS ==> r == Err::<
            Option<AttestationResult>,
            _,
        >(TunnelError::UnexpectedStatus(resp.status, resp.detail)),
        resp.metadata matches Some(m) ==> (resp.status == TUNNEL_OK_STATUS ==> r == Ok::<
            _,
            TunnelError,
        >(m)),
{
    match resp.metadata {
        None => Err(TunnelError::MissingAttestationMetadata),
        Some(m) => {
            if resp.status != TUNNEL_OK_STATUS {
                Err(TunnelError::UnexpectedStatus(resp.status, resp.detail))
            } else {
                Ok(m)
            }
        },
    }
}

#[verifier::external_type_specification]
#[verifier::external_body]
#[verifier::reject_recursive_types(T)]
pub struct ExRequest<T>(http::Request<T>);

#[verifier::external_type_specification]
#[verifier::external_body]
pub struct ExAxumBody(axum::body::Body);

/// Relies on http's request builder and axum's empty body: builds a CONNECT
/// request for the given target, protocol version HTTP/2, with an empty
/// body; a builder error is rendered as a string. The builder only fails on
/// an invalid target (it stores the error and surfaces it when the body is
/// attached), so on the fixed internal target the build succeeds.
#[verifier::external_body]
fn build_connect_request(uri: &str) -> (r: Result<http::Request<axum::body::Body>, String>)
    ensures
        uri@ == "https://tng.internal/"@ ==> r is Ok,
{
    match http::Request::connect(uri).version(http::Version::HTTP_2).body(
        axum::body::Body::empty(),
    ) {
        Ok(req) => Ok(req),
        Err(e) => Err(format!("{}", e)),
    }
}

/// The fixed internal target marker the upgrade request is addressed to.
pub fn tunnel_target() -> (r: &'static str)
    ensures
        r@ == "https://tng.internal/"@,
{
    "https://tng.internal/"
}

/// The upgrade request: a CONNECT to the fixed internal target marker, over
/// the stream-multiplexing protocol version, with an empty body. The target
/// is fixed and valid, so the build always succeeds.
pub fn build_tunnel_request() -> (r: Result<http::Request<axum::body::Body>, TunnelError>)
    ensures
        r is Ok,
{
    match build_connect_request(tunnel_target()) {
        Ok(req) => Ok(req),
        Err(d) => Err(TunnelError::RequestFailed(d)),
    }
}

/// The stages of one tunnel attempt: exactly one request, one response, one
/// upgrade; no retries at this layer.
#[derive(Debug)]
pub enum TunnelState {
    Idle,
    RequestSent,
    ResponseReceived(Option<AttestationResult>),
    Upgraded(Option<AttestationResult>),
    Failed(TunnelError),
}

/// The client side of one tunnel attempt, driven by the embedding: it feeds
/// in what each I/O step reported and reads the decision back.
#[derive(Debug)]
pub struct TunnelAttempt {
    state: TunnelState,
}

impl TunnelAttempt {
    /// The stage the attempt has reached.
    pub closed spec fn state(&self) -> TunnelState {
        self.state
    }

    /// A fresh attempt, before anything was sent.
    pub fn new() -> (r: Self)
        ensures
            r.state() is Idle,
    {
        TunnelAttempt { state: TunnelState::Idle }
    }

    /// The upgrade request went out, or could not be sent. Returns whether
    /// the attempt is still alive.
    pub fn on_request_sent(&mut self, outcome: Result<(), String>) -> (ok: bool)
        requires
            old(self).state() is Idle,
        ensures
            outcome is Ok ==> final(self).state() is RequestSent && ok,
            outcome matches Err(d) ==> final(self).state() == TunnelState::Failed(
                TunnelError::RequestFailed(d),
            ) && !ok,
    {
        match outcome {
            Ok(()) => {
                self.state = TunnelState::RequestSent;
                true
            },
            Err(d) => {
                self.state = TunnelState::Failed(TunnelError::RequestFailed(d));
                false
            },
        }
    }

    /// A response arrived: it is evaluated as [`evaluate_tunnel_response`]
    /// says, and the attempt holds the carried attestation result or the
    /// error. Returns whether the attempt is still alive.
    pub fn on_response(&mut self, resp: TunnelResponse) -> (ok: bool)
        requires
            old(self).state() is RequestSent,
        ensures
            resp.metadata is None ==> final(self).state() == TunnelState::Failed(
                TunnelError::MissingAttestationMetadata,
            ) && !ok,
            resp.metadata is Some && resp.status != TUNNEL_OK_STATUS ==> final(self).state()
                == TunnelState::Failed(TunnelError::UnexpectedStatus(resp.status, resp.detail))
                && !ok,
            resp.metadata matches Some(m) ==> (resp.status == TUNNEL_OK_STATUS
                ==> final(self).state() == TunnelState::ResponseReceived(m) && ok),
    {
        match evaluate_tunnel_response(resp) {
            Ok(m) => {
                self.state = TunnelState::ResponseReceived(m);
                true
            },
            Err(e) => {
                self.state = TunnelState::Failed(e);
                false
            },
        }
    }

    /// The protocol-level upgrade signal arrived, or failed. On success the
    /// attempt is terminal and keeps the attestation result it received.
    pub fn on_upgrade(&mut self, outcome: Result<(), String>) -> (ok: bool)
        requires
            old(self).state() is ResponseReceived,
        ensures
            outcome is Ok ==> final(self).state() == TunnelState::Upgraded(
                old(self).state()->ResponseReceived_0,
            ) && ok,
            outcome matches Err(d) ==> final(self).state() == TunnelState::Failed(
                TunnelError::UpgradeFailed(d),
            ) && !ok,
    {
        match outcome {
            Ok(()) => {
                let mut taken = TunnelState::Idle;
                core::mem::swap(&mut taken, &mut self.state);
                let m = match taken {
                    TunnelState::ResponseReceived(m) => m,
                    _ => vstd::pervasive::unreached(),
                };
                self.state = TunnelState::Upgraded(m);
                true
            },
            Err(d) => {
                self.state = TunnelState::Failed(TunnelError::UpgradeFailed(d));
                false
            },
        }
    }

    /// The outcome of a finished attempt: the attestation result a
    /// successful upgrade carried — paired by the embedding with the raw
    /// byte stream it holds — or the error the attempt failed with. A failed
    /// attempt never yields a stream.
    pub fn finish(self) -> (r: Result<Option<AttestationResult>, TunnelError>)
        requires
            self.state() is Upgraded || self.state() is Failed,
        ensures
            self.state() matches TunnelState::Upgraded(m) ==> r == Ok::<_, TunnelError>(m),
            self.state() matches TunnelState::Failed(e) ==> r == Err::<
                Option<AttestationResult>,
                _,
            >(e),
    {
        match self.state {
            TunnelState::Upgraded(m) => Ok(m),
            TunnelState::Failed(e) => Err(e),
            _ => vstd::pervasive::unreached(),
        }
    }
}

} // verus!
