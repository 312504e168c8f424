//! Client library for the Supla playlist web API: builds the playlist
//! request for a channel, delegates the network fetch to a pluggable
//! transport, and decodes the JSON response into typed records.

pub mod data;
pub mod decode;
pub mod http;
pub mod json;
pub mod numfmt;

use vstd::prelude::*;
use vstd::string::StringExecFns;
use crate::data::Playlist;
use crate::decode::{decode_outcome, decode_playlist, playlist_matches, playlist_shape};
use crate::http::{HttpClient, TransportFailure};
use crate::json::json_parse;
use crate::numfmt::dec_int;

verus! {

/// The closed set of failures surfaced to callers.
#[derive(Debug, Clone, PartialEq, Eq)]
pub enum Error {
    /// The transport reported a failure (network error or non-success status).
    HTTPError,
    /// Reserved for local I/O failures unrelated to the network call.
    IOError(String),
    /// The response body was not valid JSON, or its shape did not match the
    /// expected playlist record; carries the diagnostic.
    JSONError(String),
    /// Reserved for structural navigation failures into a JSON value.
    JSONPathError,
    /// Reserved for caller-supplied parameter validation failures.
    InvalidParameter(String),
}

/// The playlist endpoint URL composed from a base host: a fixed
/// scheme-and-subdomain prefix followed by the host.
pub open spec fn spec_playlist_url(base: Seq<char>) -> Seq<char> {
    "https://supla-playlist"@ + base
}

/// The ordered query parameters of one playlist request: always `channel`
/// and `limit`, then `next_token` if and only if the caller supplied one,
/// each value in decimal.
pub fn query_args(channel: i32, limit: i32, next_token: Option<i64>) -> (r: Vec<(String, String)>)
    ensures
        next_token is None ==> r@.len() == 2,
        next_token is Some ==> r@.len() == 3,
        r@[0].0@ == "channel"@ && r@[0].1@ == dec_int(channel as int),
        r@[1].0@ == "limit"@ && r@[1].1@ == dec_int(limit as int),
        next_token matches Some(t) ==> (r@[2].0@ == "next_token"@ && r@[2].1@ == dec_int(
            t as int,
        )),
{
    let mut args: Vec<(String, String)> = Vec::new();
    args.push(("channel".to_owned(), numfmt::i32_to_string(channel)));
    args.push(("limit".to_owned(), numfmt::i32_to_string(limit)));
    if let Some(t) = next_token {
        args.push(("next_token".to_owned(), numfmt::i64_to_string(t)));
    }
    args
}

/// Maps the transport's outcome to the client's result: any transport
/// failure becomes exactly [`Error::HTTPError`], with the body never looked
/// at; a returned body is decoded as a playlist.
pub fn handle_response(resp: Result<String, TransportFailure>) -> (r: Result<Playlist, Error>)
    ensures
        resp is Err ==> r == Err::<Playlist, Error>(Error::HTTPError),
        resp matches Ok(body) ==> decode_outcome(body@, r),
{
    match resp {
        Ok(body) => decode_playlist(body.as_str()),
        Err(_) => Err(Error::HTTPError),
    }
}

/// The main interface to interact with: owns a transport capability and the
/// API's base host, both set at construction.
#[derive(Debug, Clone)]
pub struct SuplAPI<A: HttpClient> {
    pub client: A,
    pub base_url: String,
}

impl<A: HttpClient + Default> Default for SuplAPI<A> {
    /// Builds a client around the transport type's default value.
    fn default() -> (r: Self)
        ensures
            r.base_url@ == ".nm-services.nelonenmedia.fi"@,
    {
        SuplAPI::new(A::default())
    }
}

impl<A: HttpClient> SuplAPI<A> {
    /// Builds a client around the given transport, configuring the
    /// library's identification string on it and the fixed API host.
    pub fn new(client: A) -> (r: Self)
        ensures
            r.base_url@ == ".nm-services.nelonenmedia.fi"@,
    {
        let mut client = client;
        client.user_agent("suplapi ()".to_owned());
        SuplAPI { client, base_url: ".nm-services.nelonenmedia.fi".to_owned() }
    }

    /// Composes the full playlist endpoint URL from the base host. Pure
    /// function of the client's state.
    pub fn playlist_url(&self) -> (r: String)
        ensures
            r@ == spec_playlist_url(self.base_url@),
    {
        let mut s = "https://supla-playlist".to_owned();
        s.append(self.base_url.as_str());
        s
    }

    /// Fetches one page of the play history of `channel`, `limit` entries,
    /// continuing from `next_token` when one is given. The query parameters
    /// are exactly [`query_args`]`(channel, limit, next_token)`; a transport
    /// failure is reported as [`Error::HTTPError`] and a body that is not a
    /// valid playlist document as [`Error::JSONError`].
    pub fn playlist(&self, channel: i32, limit: i32, next_token: Option<i64>) -> (r: Result<
        Playlist,
        Error,
    >)
        ensures
            r matches Ok(p) ==> exists|body: Seq<char>|
                (#[trigger] json_parse(body)) matches Some(v) && playlist_shape(v)
                    && playlist_matches(p, v),
            r matches Err(e) ==> (e matches Error::HTTPError || e matches Error::JSONError(_)),
    {
        let mut url = self.playlist_url();
        url.append("/playlist?");
        let args = query_args(channel, limit, next_token);
        let resp = self.client.get(url.as_str(), &args);
        let ghost transport_outcome = resp;
        let r = handle_response(resp);
        proof {
            if r is Ok {
                let p = r->Ok_0;
                let body = transport_outcome->Ok_0;
                assert(decode_outcome(body@, r));
                assert(json_parse(body@) matches Some(v) && playlist_shape(v)
                    && playlist_matches(p, v));
            }
        }
        r
    }
}

} // verus!
