//! Trust-parameter resolution: two RPC exchanges fix the trust anchor that
//! the daemon bootstraps state sync from. The first response carries the
//! latest block height; the trust height is one window below it, and the
//! second response, for the block at that height, carries the trust hash.
//!
//! The network calls themselves happen outside this crate; this module
//! decides what to ask and what each answer means, as a state machine over
//! plain status codes and body text.

use vstd::prelude::*;
use vstd::string::StringExecFns;
use crate::numeric::{is_dec_string, dec_val, dec_str, parse_u64, u64_to_dec};

verus! {

/// How far below the latest block the trust anchor is placed.
pub const TRUST_WINDOW: u64 = 100;

/// The string field at JSON pointer `pointer` of the document `body`, if
/// the body is valid JSON and that field exists and holds a string.
pub uninterp spec fn json_string_at_spec(body: Seq<char>, pointer: Seq<char>) -> Option<Seq<char>>;

/// Relies on serde_json::from_str, serde_json::Value::pointer and
/// serde_json::Value::as_str: parsing a document and looking a field up by
/// a JSON pointer (RFC 6901) are deterministic in the document text and
/// the pointer alone, so the extracted string is a function of the two
/// arguments.
#[verifier::external_body]
fn json_string_at(body: &str, pointer: &str) -> (r: Option<String>)
    ensures
        r is Some <==> json_string_at_spec(body@, pointer@) is Some,
        r matches Some(s) ==> json_string_at_spec(body@, pointer@) == Some(s@),
{
    match serde_json::from_str::<serde_json::Value>(body) {
        Ok(doc) => doc.pointer(pointer).and_then(|f| f.as_str()).map(|s| s.to_string()),
        Err(_) => None,
    }
}

/// Why trust-parameter resolution failed.
#[derive(Clone, Copy, Debug, PartialEq, Eq, Structural)]
pub enum ResolveError {
    /// An RPC call answered with a non-success status (or, at the caller's
    /// edge, could not complete at all).
    NetworkError,
    /// The response body was not valid JSON, lacked the expected field, or
    /// carried a height that does not parse as an unsigned integer.
    MalformedResponseError,
    /// The latest height does not exceed the trust window, so no valid
    /// trust height exists below it; resolution refuses rather than wrap.
    HeightOutOfRange,
}

/// The trust anchor: a recent block height and the hash of the block there.
pub struct TrustParams {
    pub height: u64,
    pub hash: String,
}

/// Mathematical shadow of `TrustParams`.
pub struct TrustModel {
    pub height: u64,
    pub hash: Seq<char>,
}

impl View for TrustParams {
    type V = TrustModel;

    open spec fn view(&self) -> TrustModel {
        TrustModel { height: self.height, hash: self.hash@ }
    }
}

impl TrustParams {
    /// A resolved trust anchor always carries a non-empty hash.
    pub open spec fn wf(self) -> bool {
        self.hash@.len() > 0
    }
}

/// Whether an HTTP status code counts as success.
pub open spec fn is_success_status(status: u16) -> bool {
    200 <= status < 300
}

fn status_is_success(status: u16) -> (r: bool)
    ensures
        r == is_success_status(status),
{
    200 <= status && status < 300
}

/// What the first exchange (`GET {endpoint}/block`) means: the trust
/// height one window below the reported latest height, or the error.
pub open spec fn latest_outcome(status: u16, body: Seq<char>) -> Result<u64, ResolveError> {
    if !is_success_status(status) {
        Err(ResolveError::NetworkError)
    } else {
        match json_string_at_spec(body, "/result/block/header/height"@) {
            Option::None => Err(ResolveError::MalformedResponseError),
            Option::Some(h) => if !is_dec_string(h) || dec_val(h) > (u64::MAX as nat) {
                Err(ResolveError::MalformedResponseError)
            } else if dec_val(h) <= (TRUST_WINDOW as nat) {
                Err(ResolveError::HeightOutOfRange)
            } else {
                Ok((dec_val(h) - TRUST_WINDOW) as u64)
            },
        }
    }
}

/// What the second exchange (`GET {endpoint}/block?height={trust_height}`)
/// means: the completed trust anchor, or the error.
pub open spec fn block_at_outcome(status: u16, body: Seq<char>, trust_height: u64) -> Result<
    TrustModel,
    ResolveError,
> {
    if !is_success_status(status) {
        Err(ResolveError::NetworkError)
    } else {
        match json_string_at_spec(body, "/result/block_id/hash"@) {
            Option::None => Err(ResolveError::MalformedResponseError),
            Option::Some(h) => if h.len() == 0 {
                Err(ResolveError::MalformedResponseError)
            } else {
                Ok(TrustModel { height: trust_height, hash: h })
            },
        }
    }
}

/// Interpret the response of the first RPC call.
pub fn handle_latest_response(status: u16, body: &str) -> (r: Result<u64, ResolveError>)
    ensures
        r == latest_outcome(status, body@),
{
    if !status_is_success(status) {
        return Err(ResolveError::NetworkError);
    }
    match json_string_at(body, "/result/block/header/height") {
        Option::None => Err(ResolveError::MalformedResponseError),
        Option::Some(h) => match parse_u64(h.as_str()) {
            Option::None => Err(ResolveError::MalformedResponseError),
            Option::Some(latest) => if latest <= TRUST_WINDOW {
                Err(ResolveError::HeightOutOfRange)
            } else {
                Ok(latest - TRUST_WINDOW)
            },
        },
    }
}

/// Interpret the response of the second RPC call, completing the anchor
/// whose height was fixed by the first.
pub fn handle_block_at_response(status: u16, body: &str, trust_height: u64) -> (r: Result<
    TrustParams,
    ResolveError,
>)
    ensures
        match (r, block_at_outcome(status, body@, trust_height)) {
            (Ok(p), Ok(m)) => p@ == m && p.wf(),
            (Err(e), Err(f)) => e == f,
            _ => false,
        },
{
    if !status_is_success(status) {
        return Err(ResolveError::NetworkError);
    }
    match json_string_at(body, "/result/block_id/hash") {
        Option::None => Err(ResolveError::MalformedResponseError),
        Option::Some(h) => if h.as_str().is_empty() {
            Err(ResolveError::MalformedResponseError)
        } else {
            Ok(TrustParams { height: trust_height, hash: h })
        },
    }
}

/// Where the two-call resolution currently stands.
pub enum ResolvePhase {
    /// The first request, for the latest block, has not been answered yet.
    NeedLatest,
    /// The first answer fixed the trust height; the block at that height
    /// is being asked for.
    NeedBlockAt { trust_height: u64 },
    /// Both answers arrived and were accepted.
    Resolved { params: TrustParams },
    /// Resolution failed; the launch must stop.
    Failed { error: ResolveError },
}

/// The request the current phase waits on, as a path-and-query string to
/// append to the RPC endpoint; `None` once resolution is over.
pub open spec fn request_path_spec(phase: ResolvePhase) -> Option<Seq<char>> {
    match phase {
        ResolvePhase::NeedLatest => Some("/block"@),
        ResolvePhase::NeedBlockAt { trust_height } => Some(
            "/block?height="@ + dec_str(trust_height as nat),
        ),
        ResolvePhase::Resolved { .. } => None,
        ResolvePhase::Failed { .. } => None,
    }
}

/// Build the request that the current phase waits on.
pub fn request_path(phase: &ResolvePhase) -> (r: Option<String>)
    ensures
        match r {
            Some(p) => request_path_spec(*phase) == Some(p@),
            None => request_path_spec(*phase) is None,
        },
{
    match phase {
        ResolvePhase::NeedLatest => Some("/block".to_owned()),
        ResolvePhase::NeedBlockAt { trust_height } => {
            let mut p = "/block?height=".to_owned();
            let h = u64_to_dec(*trust_height);
            p.append(h.as_str());
            Some(p)
        },
        ResolvePhase::Resolved { .. } => None,
        ResolvePhase::Failed { .. } => None,
    }
}

/// Advance resolution by one answered request.
pub fn resolve_step(phase: ResolvePhase, status: u16, body: &str) -> (next: ResolvePhase)
    requires
        phase is NeedLatest || phase is NeedBlockAt,
    ensures
        phase is NeedLatest ==> (match latest_outcome(status, body@) {
            Ok(th) => next == (ResolvePhase::NeedBlockAt { trust_height: th }),
            Err(e) => next == (ResolvePhase::Failed { error: e }),
        }),
        phase matches ResolvePhase::NeedBlockAt { trust_height } ==> (match block_at_outcome(
            status,
            body@,
            trust_height,
        ) {
            Ok(m) => next matches ResolvePhase::Resolved { params } && params@ == m
                && params.wf(),
            Err(e) => next == (ResolvePhase::Failed { error: e }),
        }),
{
    match phase {
        ResolvePhase::NeedLatest => match handle_latest_response(status, body) {
            Ok(th) => ResolvePhase::NeedBlockAt { trust_height: th },
            Err(e) => ResolvePhase::Failed { error: e },
        },
        ResolvePhase::NeedBlockAt { trust_height } => match handle_block_at_response(
            status,
            body,
            trust_height,
        ) {
            Ok(params) => ResolvePhase::Resolved { params },
            Err(e) => ResolvePhase::Failed { error: e },
        },
        other => other,
    }
}

/// For all accepted RPC responses, resolution yields exactly the reported
/// latest height minus the trust window, and the hash string of the second
/// response unchanged.
pub proof fn lemma_resolution_exact(status1: u16, body1: Seq<char>, status2: u16, body2: Seq<char>)
    requires
        is_success_status(status1),
        is_success_status(status2),
        json_string_at_spec(body1, "/result/block/header/height"@) matches Some(h)
            && is_dec_string(h) && (TRUST_WINDOW as nat) < dec_val(h) <= (u64::MAX as nat),
        json_string_at_spec(body2, "/result/block_id/hash"@) matches Some(hash) && hash.len() > 0,
    ensures
        latest_outcome(status1, body1) matches Ok(th) && (json_string_at_spec(
            body1,
            "/result/block/header/height"@,
        ) matches Some(h) && th == dec_val(h) - TRUST_WINDOW) && (block_at_outcome(
            status2,
            body2,
            th,
        ) matches Ok(m) && m.height == th && (json_string_at_spec(
            body2,
            "/result/block_id/hash"@,
        ) matches Some(hash) && m.hash == hash)),
{
}

/// A failed first call fails the whole resolution with a network error,
/// and a failed resolution waits on no request: the second RPC call is
/// never issued.
pub proof fn lemma_first_failure_stops(status: u16, body: Seq<char>)
    requires
        !is_success_status(status),
    ensures
        latest_outcome(status, body) == Err::<u64, ResolveError>(ResolveError::NetworkError),
        request_path_spec(ResolvePhase::Failed { error: ResolveError::NetworkError }) is None,
{
}

/// A chain not yet past the trust window is rejected outright: the trust
/// height is never produced by wrapping below zero.
pub proof fn lemma_short_chain_rejected(status: u16, body: Seq<char>)
    requires
        is_success_status(status),
        json_string_at_spec(body, "/result/block/header/height"@) matches Some(h)
            && is_dec_string(h) && dec_val(h) <= (TRUST_WINDOW as nat),
    ensures
        latest_outcome(status, body) == Err::<u64, ResolveError>(ResolveError::HeightOutOfRange),
{
}

} // verus!
