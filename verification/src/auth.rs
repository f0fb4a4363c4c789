//! The two-step authorization handshake, driven as a state machine over
//! plain response values: the caller performs the HTTP calls and feeds
//! each response in; the machine judges it, derives the partial key, and
//! fills the header set.

use vstd::prelude::*;

use crate::errors::{ProtocolFault, RadikoError, ValidationFault};
use crate::headers::{spec_pair_views, spec_wire_pairs, HeaderSet};
use crate::keys::{derive_partial_key, spec_auth_key, spec_b64_of, SECRET_LEN};
use crate::response::{
    header_lookup, parse_decimal, spec_decimal_value, spec_header_lookup, spec_parseable_decimal,
    AuthResponse,
};
use crate::validate::{is_valid_area_id, spec_valid_area_id};
use crate::{is_success_status, spec_is_success_status};

verus! {

/// The handshake's position: step 1 not yet judged, step 1 done, the
/// terminal success, or the terminal failure.
#[derive(Clone, Copy, Debug, PartialEq, Eq, Structural)]
pub enum AuthState {
    /// Waiting for the step-1 response.
    Step1Pending,
    /// Step 1 accepted; waiting for the step-2 response.
    Step1Done,
    /// Both steps accepted; the header set is sealed.
    Established,
    /// A step failed; the session is unusable.
    Failed,
}

/// The authorization handler: owns the evolving header set and walks the
/// handshake states. The caller issues the HTTP requests (step 1, then
/// step 2, each with `request_headers()` and a bounded timeout, pausing
/// between calls) and hands each response to the matching `apply_` step.
pub struct RadikoAuthHandler {
    /// Where the handshake stands.
    pub state: AuthState,
    /// The session's header set; written only by the handshake.
    pub headers: HeaderSet,
}

/// How the protocol judges a step-1 response.
pub enum Step1Outcome {
    /// The transport failed: a non-success HTTP status.
    TransportFailed,
    /// The response broke the protocol's contract.
    Violated(ProtocolFault),
    /// The response was accepted, yielding the token it carried and the
    /// partial key derived from the offset/length pair it carried.
    Accepted { token: Seq<char>, partial_key: Seq<char> },
}

/// Judges a step-1 response: a success status must carry the auth token
/// and a parseable, in-bounds key-offset/key-length pair; the outcome of
/// acceptance is the token and the base64 encoding of the selected
/// secret slice.
pub open spec fn spec_step1_outcome(status: u16, headers: Seq<(String, String)>) -> Step1Outcome {
    if !spec_is_success_status(status) {
        Step1Outcome::TransportFailed
    } else {
        match spec_header_lookup(headers, "X-Radiko-AUTHTOKEN"@) {
            None => Step1Outcome::Violated(ProtocolFault::MissingAuthToken),
            Some(token) => match spec_header_lookup(headers, "X-Radiko-KeyLength"@) {
                None => Step1Outcome::Violated(ProtocolFault::MissingKeyLength),
                Some(len_s) => if !spec_parseable_decimal(len_s) {
                    Step1Outcome::Violated(ProtocolFault::MalformedKeyLength)
                } else {
                    match spec_header_lookup(headers, "X-Radiko-KeyOffset"@) {
                        None => Step1Outcome::Violated(ProtocolFault::MissingKeyOffset),
                        Some(off_s) => if !spec_parseable_decimal(off_s) {
                            Step1Outcome::Violated(ProtocolFault::MalformedKeyOffset)
                        } else {
                            let off = spec_decimal_value(off_s);
                            let len = spec_decimal_value(len_s);
                            if off + len > SECRET_LEN as int {
                                Step1Outcome::Violated(ProtocolFault::KeyOutOfBounds)
                            } else {
                                Step1Outcome::Accepted {
                                    token,
                                    partial_key: spec_b64_of(
                                        spec_auth_key().subrange(off, off + len),
                                    ),
                                }
                            }
                        },
                    }
                },
            },
        }
    }
}

/// What one step-1 application does to the handler: the area id and the
/// keep-alive flag never change; the rest follows the response's
/// judgment. On acceptance the two credential slots hold exactly the
/// token and the derived partial key; on any failure the header set is
/// untouched and the session is failed.
pub open spec fn spec_step1_transition(
    pre: RadikoAuthHandler,
    post: RadikoAuthHandler,
    resp: AuthResponse,
    r: Result<(), RadikoError>,
) -> bool {
    &&& post.headers.area_id == pre.headers.area_id
    &&& post.headers.keep_alive == pre.headers.keep_alive
    &&& match spec_step1_outcome(resp.status, resp.headers@) {
        Step1Outcome::TransportFailed => {
            &&& r matches Err(e) && e matches RadikoError::Transport { status: st, body: b }
                && st == resp.status && b@ == resp.body@
            &&& post.state is Failed
            &&& post.headers == pre.headers
        },
        Step1Outcome::Violated(f) => {
            &&& r == Err::<(), RadikoError>(RadikoError::Protocol(f))
            &&& post.state is Failed
            &&& post.headers == pre.headers
        },
        Step1Outcome::Accepted { token, partial_key } => {
            &&& r is Ok
            &&& post.state is Step1Done
            &&& post.headers.auth_token matches Some(t) && t@ == token
            &&& post.headers.partial_key matches Some(k) && k@ == partial_key
        },
    }
}

/// What one step-2 application does to the handler: the header set is
/// sealed either way; a success status establishes the session, anything
/// else fails it with the status and body kept for diagnostics.
pub open spec fn spec_step2_transition(
    pre: RadikoAuthHandler,
    post: RadikoAuthHandler,
    resp: AuthResponse,
    r: Result<(), RadikoError>,
) -> bool {
    &&& post.headers == pre.headers
    &&& if spec_is_success_status(resp.status) {
        r is Ok && post.state is Established
    } else {
        (r matches Err(e) && e matches RadikoError::Transport { status: st, body: b }
            && st == resp.status && b@ == resp.body@) && post.state is Failed
    }
}

impl RadikoAuthHandler {
    /// A handler past step 1 always holds both credentials.
    pub open spec fn wf(&self) -> bool {
        (self.state is Step1Done || self.state is Established) ==> (self.headers.auth_token
            is Some && self.headers.partial_key is Some)
    }

    /// Starts a session for a validated area id: the initial header set
    /// with empty credential slots, waiting for step 1. An invalid area
    /// id fails before any I/O could be attempted.
    pub fn new(area_id: &str) -> (r: Result<RadikoAuthHandler, RadikoError>)
        ensures
            r is Ok <==> spec_valid_area_id(area_id@),
            r matches Ok(h) ==> {
                &&& h.state is Step1Pending
                &&& h.headers.area_id@ == area_id@
                &&& h.headers.auth_token is None
                &&& h.headers.partial_key is None
                &&& !h.headers.keep_alive
                &&& h.wf()
            },
            r matches Err(e) ==> e == RadikoError::Validation(ValidationFault::BadAreaId),
    {
        if !is_valid_area_id(area_id) {
            return Err(RadikoError::Validation(ValidationFault::BadAreaId));
        }
        Ok(RadikoAuthHandler { state: AuthState::Step1Pending, headers: HeaderSet::new(area_id) })
    }

    /// The fixed step-1 endpoint.
    pub fn auth1_url() -> (r: &'static str)
        ensures
            r@ == "https://radiko.jp/v2/api/auth1"@,
    {
        "https://radiko.jp/v2/api/auth1"
    }

    /// The fixed step-2 endpoint.
    pub fn auth2_url() -> (r: &'static str)
        ensures
            r@ == "https://radiko.jp/v2/api/auth2"@,
    {
        "https://radiko.jp/v2/api/auth2"
    }

    /// The name/value pairs to send with the session's next request:
    /// the current header set in wire form.
    pub fn request_headers(&self) -> (r: Vec<(String, String)>)
        ensures
            spec_pair_views(r@) == spec_wire_pairs(self.headers),
    {
        self.headers.to_pairs()
    }

    /// True once both steps have been accepted.
    pub fn is_established(&self) -> (r: bool)
        ensures
            r == (self.state is Established),
    {
        self.state == AuthState::Established
    }

    /// Feeds the step-1 response in. On acceptance the credential slots
    /// are populated (once) and the session waits for step 2; on any
    /// failure the session is failed and the header set untouched.
    pub fn apply_step1(&mut self, resp: &AuthResponse) -> (r: Result<(), RadikoError>)
        requires
            old(self).state is Step1Pending,
        ensures
            spec_step1_transition(*old(self), *final(self), *resp, r),
            final(self).wf(),
    {
        if !is_success_status(resp.status) {
            self.state = AuthState::Failed;
            return Err(RadikoError::Transport { status: resp.status, body: resp.body.clone() });
        }
        let token = match header_lookup(&resp.headers, "X-Radiko-AUTHTOKEN") {
            Some(t) => t,
            None => {
                self.state = AuthState::Failed;
                return Err(RadikoError::Protocol(ProtocolFault::MissingAuthToken));
            },
        };
        let len_s = match header_lookup(&resp.headers, "X-Radiko-KeyLength") {
            Some(v) => v,
            None => {
                self.state = AuthState::Failed;
                return Err(RadikoError::Protocol(ProtocolFault::MissingKeyLength));
            },
        };
        let key_length = match parse_decimal(len_s.as_str()) {
            Some(v) => v,
            None => {
                self.state = AuthState::Failed;
                return Err(RadikoError::Protocol(ProtocolFault::MalformedKeyLength));
            },
        };
        let off_s = match header_lookup(&resp.headers, "X-Radiko-KeyOffset") {
            Some(v) => v,
            None => {
                self.state = AuthState::Failed;
                return Err(RadikoError::Protocol(ProtocolFault::MissingKeyOffset));
            },
        };
        let key_offset = match parse_decimal(off_s.as_str()) {
            Some(v) => v,
            None => {
                self.state = AuthState::Failed;
                return Err(RadikoError::Protocol(ProtocolFault::MalformedKeyOffset));
            },
        };
        if key_offset > SECRET_LEN as u64 || key_length > SECRET_LEN as u64 {
            self.state = AuthState::Failed;
            return Err(RadikoError::Protocol(ProtocolFault::KeyOutOfBounds));
        }
        let partial_key = match derive_partial_key(key_offset as usize, key_length as usize) {
            Ok(k) => k,
            Err(e) => {
                self.state = AuthState::Failed;
                return Err(e);
            },
        };
        self.headers.auth_token = Some(token);
        self.headers.partial_key = Some(partial_key);
        self.state = AuthState::Step1Done;
        Ok(())
    }

    /// Feeds the step-2 response in. Success is judged by HTTP status
    /// alone; the body is never read for control flow. Either way the
    /// header set is sealed.
    pub fn apply_step2(&mut self, resp: &AuthResponse) -> (r: Result<(), RadikoError>)
        requires
            old(self).state is Step1Done,
            old(self).wf(),
        ensures
            spec_step2_transition(*old(self), *final(self), *resp, r),
            final(self).wf(),
    {
        if is_success_status(resp.status) {
            self.state = AuthState::Established;
            Ok(())
        } else {
            self.state = AuthState::Failed;
            Err(RadikoError::Transport { status: resp.status, body: resp.body.clone() })
        }
    }

    /// A copy of the finalized header set; only an established session
    /// has one.
    pub fn get_authenticated_headers(&self) -> (r: HeaderSet)
        requires
            self.state is Established,
        ensures
            r == self.headers,
    {
        self.headers.duplicate()
    }
}

/// A step-1 response that succeeds at transport level but carries no
/// auth-token header is a protocol violation: step 1 fails with exactly
/// that fault and leaves the header set untouched. The failed session
/// admits no step-2 transition (`apply_step2` asks for `Step1Done`), so
/// no step-2 request is ever issued for it.
pub proof fn lemma_missing_token_fails_before_step2(
    pre: RadikoAuthHandler,
    post: RadikoAuthHandler,
    resp: AuthResponse,
    r: Result<(), RadikoError>,
)
    requires
        spec_step1_transition(pre, post, resp, r),
        spec_is_success_status(resp.status),
        spec_header_lookup(resp.headers@, "X-Radiko-AUTHTOKEN"@) is None,
    ensures
        r == Err::<(), RadikoError>(RadikoError::Protocol(ProtocolFault::MissingAuthToken)),
        post.state is Failed,
        post.headers == pre.headers,
{
}

/// When both responses succeed at transport level and step 1 carries a
/// token and a parseable, in-bounds offset/length pair, the handshake
/// establishes the session and the final header set holds exactly that
/// token and exactly the base64 encoding of the selected secret slice.
pub proof fn lemma_established_headers_exact(
    pre: RadikoAuthHandler,
    mid: RadikoAuthHandler,
    post: RadikoAuthHandler,
    resp1: AuthResponse,
    resp2: AuthResponse,
    r1: Result<(), RadikoError>,
    r2: Result<(), RadikoError>,
    token: Seq<char>,
    off_s: Seq<char>,
    len_s: Seq<char>,
)
    requires
        spec_step1_transition(pre, mid, resp1, r1),
        spec_step2_transition(mid, post, resp2, r2),
        spec_is_success_status(resp1.status),
        spec_is_success_status(resp2.status),
        spec_header_lookup(resp1.headers@, "X-Radiko-AUTHTOKEN"@) == Some(token),
        spec_header_lookup(resp1.headers@, "X-Radiko-KeyLength"@) == Some(len_s),
        spec_header_lookup(resp1.headers@, "X-Radiko-KeyOffset"@) == Some(off_s),
        spec_parseable_decimal(len_s),
        spec_parseable_decimal(off_s),
        spec_decimal_value(off_s) + spec_decimal_value(len_s) <= SECRET_LEN as int,
    ensures
        r1 is Ok,
        r2 is Ok,
        post.state is Established,
        post.headers.auth_token matches Some(t) && t@ == token,
        post.headers.partial_key matches Some(k) && k@ == spec_b64_of(
            spec_auth_key().subrange(
                spec_decimal_value(off_s),
                spec_decimal_value(off_s) + spec_decimal_value(len_s),
            ),
        ),
{
}

} // verus!
