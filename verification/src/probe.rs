//! Health probe classification: turns the raw observation of the
//! optional API health call into a `ProbeOutcome`. The probe is
//! advisory only — no outcome aborts the installation.

use vstd::prelude::*;

verus! {

/// The metadata reported by a healthy API endpoint.
#[derive(Debug)]
pub struct HealthReport {
    pub organization_name: String,
    pub production: bool,
    pub version: String,
}

/// Why a responding endpoint was not accepted as healthy.
#[derive(Debug)]
pub enum ProbeIssue {
    /// The endpoint answered with a non-success HTTP status.
    UnexpectedStatus(u16),
    /// The endpoint answered with a success status, but the body could
    /// not be decoded as the expected health payload.
    MalformedPayload,
}

/// The result of probing the API endpoint. Informational only: the
/// pipeline proceeds whatever the outcome.
#[derive(Debug)]
pub enum ProbeOutcome {
    /// The endpoint could not be reached at all; carries a
    /// human-readable cause.
    Unreachable(String),
    /// The endpoint responded, but not with a healthy payload.
    Unexpected(ProbeIssue),
    /// The endpoint responded with the expected health payload.
    Healthy(HealthReport),
}

/// What the network layer observed when contacting the endpoint:
/// either a transport-level failure, or an HTTP response together with
/// the attempt to decode its body as a health payload.
#[derive(Debug)]
pub enum ProbeResponse {
    /// Connection, TLS or timeout failure; carries the cause.
    TransportError(String),
    /// An HTTP response arrived. `body` is the decoded health payload,
    /// or `None` when the body was not of the expected shape.
    Http { status: u16, body: Option<HealthReport> },
}

/// HTTP statuses counted as success: the 2xx range.
pub open spec fn is_success_status(status: u16) -> bool {
    200 <= status < 300
}

/// Classifies a raw probe observation.
///
/// A transport failure is `Unreachable`; a non-2xx status is
/// `Unexpected` with that status; a 2xx status whose body did not
/// decode is `Unexpected` with a payload issue; a 2xx status with a
/// decoded body is `Healthy` with exactly the decoded fields.
pub fn classify_probe(response: ProbeResponse) -> (r: ProbeOutcome)
    ensures
        r == spec_classify_probe(response),
{
    match response {
        ProbeResponse::TransportError(cause) => ProbeOutcome::Unreachable(cause),
        ProbeResponse::Http { status, body } => {
            if 200 <= status && status < 300 {
                match body {
                    Some(report) => ProbeOutcome::Healthy(report),
                    None => ProbeOutcome::Unexpected(ProbeIssue::MalformedPayload),
                }
            } else {
                ProbeOutcome::Unexpected(ProbeIssue::UnexpectedStatus(status))
            }
        },
    }
}

/// The classification rule of `classify_probe`.
pub open spec fn spec_classify_probe(response: ProbeResponse) -> ProbeOutcome {
    match response {
        ProbeResponse::TransportError(cause) => ProbeOutcome::Unreachable(cause),
        ProbeResponse::Http { status, body } => if is_success_status(status) {
            match body {
                Some(report) => ProbeOutcome::Healthy(report),
                None => ProbeOutcome::Unexpected(ProbeIssue::MalformedPayload),
            }
        } else {
            ProbeOutcome::Unexpected(ProbeIssue::UnexpectedStatus(status))
        },
    }
}

} // verus!
