//! The request-handling decisions: what happens before the one outbound call
//! and what every outcome of that call turns into.
//!
//! The handler is stateless and linear: prepare the outbound request (or
//! refuse when no credential is configured), let the surrounding server
//! perform the one bounded-time network call, then conclude from its outcome.
//! Every failure is classified here and mapped to one HTTP status; nothing is
//! retried and nothing is dropped silently.

use vstd::prelude::*;
use vstd::string::StringExecFns;
use crate::message::{InboundMessage, OutboundReply};
use crate::upstream::{
    build_upstream_request, extract_reply, extracted, is_relay_request, spec_fallback,
    UpstreamRequest, UpstreamResponse,
};

verus! {

/// Every failure mode of one relayed request. Each is terminal for that
/// request alone and is surfaced as one HTTP status with a human-readable
/// body.
#[derive(Debug)]
pub enum RelayError {
    /// The API credential is absent from the configuration; no upstream call
    /// is attempted.
    ConfigMissing,
    /// The one outbound call exceeded its hard time bound.
    UpstreamTimeout,
    /// The outbound call failed in transport for any other reason; carries
    /// the underlying failure description for diagnostics.
    UpstreamUnreachable(String),
    /// The upstream body could not be decoded as the expected response shape.
    UpstreamUnparseable,
}

impl RelayError {
    /// The HTTP status each failure is surfaced as.
    pub open spec fn spec_status(self) -> u16 {
        match self {
            RelayError::ConfigMissing => 500,
            RelayError::UpstreamTimeout => 408,
            RelayError::UpstreamUnreachable(_) => 500,
            RelayError::UpstreamUnparseable => 502,
        }
    }

    pub fn status(&self) -> (s: u16)
        ensures
            s == self.spec_status(),
    {
        match self {
            RelayError::ConfigMissing => 500,
            RelayError::UpstreamTimeout => 408,
            RelayError::UpstreamUnreachable(_) => 500,
            RelayError::UpstreamUnparseable => 502,
        }
    }

    /// The human-readable body each failure is surfaced with; the transport
    /// failure embeds its diagnostic description.
    pub open spec fn spec_body(self) -> Seq<char> {
        match self {
            RelayError::ConfigMissing => "API 키가 설정되지 않았습니다."@,
            RelayError::UpstreamTimeout => "AI 코치 응답 시간이 초과되었습니다. 잠시 후 다시 시도해 주세요."@,
            RelayError::UpstreamUnreachable(d) => "AI 통신 실패: "@ + d@,
            RelayError::UpstreamUnparseable => "AI 응답을 처리하는 데 실패했습니다."@,
        }
    }

    pub fn body(&self) -> (b: String)
        ensures
            b@ == self.spec_body(),
    {
        match self {
            RelayError::ConfigMissing => String::from_str("API 키가 설정되지 않았습니다."),
            RelayError::UpstreamTimeout => String::from_str(
                "AI 코치 응답 시간이 초과되었습니다. 잠시 후 다시 시도해 주세요.",
            ),
            RelayError::UpstreamUnreachable(d) => String::from_str("AI 통신 실패: ").concat(
                d.as_str(),
            ),
            RelayError::UpstreamUnparseable => String::from_str(
                "AI 응답을 처리하는 데 실패했습니다.",
            ),
        }
    }
}

/// What `prepare` decides: an upstream request exists exactly when a
/// credential is configured, and then it is the two-turn request around the
/// caller's message; otherwise the one refusal is the configuration-missing
/// error.
pub open spec fn prepared(
    key_present: bool,
    msg: Seq<char>,
    r: Result<UpstreamRequest, RelayError>,
) -> bool {
    match r {
        Ok(req) => key_present && is_relay_request(req@, msg),
        Err(e) => !key_present && e == RelayError::ConfigMissing,
    }
}

/// Everything decided before the one outbound call: with no credential the
/// request is refused outright — no upstream request exists to send — and
/// otherwise the outbound request is built around the caller's message,
/// unmodified.
pub fn prepare(api_key: &Option<String>, inbound: &InboundMessage) -> (r: Result<
    UpstreamRequest,
    RelayError,
>)
    ensures
        prepared(api_key.is_some(), inbound@, r),
{
    match api_key {
        Some(_) => Ok(build_upstream_request(&inbound.message)),
        None => Err(RelayError::ConfigMissing),
    }
}

/// How the one outbound call ended, as the handler sees it. The surrounding
/// server performs the call and reports exactly one of these.
pub enum UpstreamEvent {
    /// Transport succeeded and the body decoded as the expected shape.
    Reply(UpstreamResponse),
    /// Transport succeeded but the body did not decode as the expected shape.
    Unparseable,
    /// The call exceeded the hard time bound.
    TimedOut,
    /// Any other transport failure, with its description.
    TransportFailed(String),
}

/// What `conclude` decides for each outcome of the outbound call: a decoded
/// reply always succeeds, carrying the extracted text (or the fixed fallback);
/// every other outcome is classified as exactly one error.
pub open spec fn concluded(event: UpstreamEvent, r: Result<OutboundReply, RelayError>) -> bool {
    match event {
        UpstreamEvent::Reply(resp) => r matches Ok(rep) && rep@ == extracted(resp),
        UpstreamEvent::Unparseable => r == Err::<OutboundReply, RelayError>(
            RelayError::UpstreamUnparseable,
        ),
        UpstreamEvent::TimedOut => r == Err::<OutboundReply, RelayError>(
            RelayError::UpstreamTimeout,
        ),
        UpstreamEvent::TransportFailed(d) => r == Err::<OutboundReply, RelayError>(
            RelayError::UpstreamUnreachable(d),
        ),
    }
}

/// Everything decided after the one outbound call: extraction of the reply
/// text on success, classification of every failure.
pub fn conclude(event: UpstreamEvent) -> (r: Result<OutboundReply, RelayError>)
    ensures
        concluded(event, r),
{
    match event {
        UpstreamEvent::Reply(resp) => Ok(OutboundReply { response: extract_reply(&resp) }),
        UpstreamEvent::Unparseable => Err(RelayError::UpstreamUnparseable),
        UpstreamEvent::TimedOut => Err(RelayError::UpstreamTimeout),
        UpstreamEvent::TransportFailed(d) => Err(RelayError::UpstreamUnreachable(d)),
    }
}

/// The HTTP status of a handled request: success is 200, every failure its
/// own classification.
pub open spec fn spec_response_status(r: Result<OutboundReply, RelayError>) -> u16 {
    match r {
        Ok(_) => 200,
        Err(e) => e.spec_status(),
    }
}

pub fn response_status(r: &Result<OutboundReply, RelayError>) -> (s: u16)
    ensures
        s == spec_response_status(*r),
{
    match r {
        Ok(_) => 200,
        Err(e) => e.status(),
    }
}

/// With no credential configured, the handler's one decision before the
/// network is always the configuration-missing refusal: no upstream request
/// exists, so no outbound call can occur, and the surfaced status is 500.
pub proof fn lemma_no_credential_no_upstream_call(
    msg: Seq<char>,
    r: Result<UpstreamRequest, RelayError>,
)
    requires
        prepared(false, msg, r),
    ensures
        r == Err::<UpstreamRequest, RelayError>(RelayError::ConfigMissing),
        (match r {
            Ok(_) => true,
            Err(e) => e.spec_status() == 500,
        }),
{
}

/// A timed-out outbound call is always classified as the timeout status 408,
/// whatever upstream might eventually have returned: the timeout outcome
/// carries no reply for the handler to look at.
pub proof fn lemma_timeout_always_408(event: UpstreamEvent, r: Result<OutboundReply, RelayError>)
    requires
        event is TimedOut,
        concluded(event, r),
    ensures
        r == Err::<OutboundReply, RelayError>(RelayError::UpstreamTimeout),
        spec_response_status(r) == 408,
{
}

/// A decoded upstream reply with an empty candidate list still concludes in
/// success — status 200 with the fixed fallback text — never in an error.
pub proof fn lemma_empty_candidates_still_succeed(
    resp: UpstreamResponse,
    r: Result<OutboundReply, RelayError>,
)
    requires
        resp@.len() == 0,
        concluded(UpstreamEvent::Reply(resp), r),
    ensures
        r matches Ok(rep) && rep@ == spec_fallback(),
        spec_response_status(r) == 200,
{
}

} // verus!
