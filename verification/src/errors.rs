//! The closed set of failures one request's pipeline can meet, and the log
//! record each is reported with.

use crate::strutil::{decimal_chars, has_substring, push_decimal, string_push_str};
use vstd::prelude::*;

verus! {

/// Everything that can go wrong while serving one request. Every variant
/// collapses to the same opaque HTTP failure reply; only the log record
/// keeps the kind and its detail.
#[derive(Debug, PartialEq, Eq)]
pub enum ArtError {
    /// Network-level failure reaching either remote endpoint.
    Transport { detail: String },
    /// A remote endpoint answered with a status outside the success range.
    RemoteApi { status: u16 },
    /// The search response body did not parse as image records.
    MalformedResponse,
    /// The search returned zero candidates.
    EmptyResult,
    /// The fetched bytes are not a recognizable image.
    Decode,
}

/// The log record for `e`: the error's kind, then its detail.
pub open spec fn spec_log_line(e: ArtError) -> Seq<char> {
    match e {
        ArtError::Transport { detail } => "TransportError: "@ + detail@,
        ArtError::RemoteApi { status } => "RemoteApiError: remote endpoint returned HTTP "@
            + decimal_chars(status as nat),
        ArtError::MalformedResponse =>
        "MalformedResponseError: the search response did not parse as image records"@,
        ArtError::EmptyResult => "EmptyResultError: the search returned no images"@,
        ArtError::Decode => "DecodeError: the fetched bytes are not a recognizable image"@,
    }
}

impl ArtError {
    /// One line for the operational log: the error's kind and detail.
    pub fn log_line(&self) -> (r: String)
        ensures
            r@ == spec_log_line(*self),
    {
        match self {
            ArtError::Transport { detail } => {
                let mut m = "TransportError: ".to_owned();
                string_push_str(&mut m, detail.as_str());
                m
            },
            ArtError::RemoteApi { status } => {
                let mut m = "RemoteApiError: remote endpoint returned HTTP ".to_owned();
                push_decimal(&mut m, *status);
                m
            },
            ArtError::MalformedResponse => {
                "MalformedResponseError: the search response did not parse as image records".to_owned()
            },
            ArtError::EmptyResult => { "EmptyResultError: the search returned no images".to_owned()
            },
            ArtError::Decode => {
                "DecodeError: the fetched bytes are not a recognizable image".to_owned()
            },
        }
    }
}

/// The log line of a remote-status failure mentions the observed status:
/// the status's decimal rendering stands in the line.
pub proof fn lemma_remote_api_log_mentions_status(status: u16)
    ensures
        has_substring(
            spec_log_line(ArtError::RemoteApi { status }),
            decimal_chars(status as nat),
        ),
{
    let p = "RemoteApiError: remote endpoint returned HTTP "@;
    let d = decimal_chars(status as nat);
    let s = spec_log_line(ArtError::RemoteApi { status });
    assert(s.subrange(p.len() as int, (p.len() + d.len()) as int) =~= d);
}

} // verus!
