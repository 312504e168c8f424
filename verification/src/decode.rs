//! Decoding of a response body into the typed [`Playlist`] record: the body
//! is parsed as generic JSON at the trusted boundary, then coerced here,
//! with every shape mismatch reported as [`Error::JSONError`].

use vstd::prelude::*;
use crate::data::{Playlist, Track};
use crate::json::{json_parse, parse_json, JsonValue};
use crate::Error;

verus! {

/// The entry for `key` in an object's field list, scanning from index `i`:
/// the first entry whose key equals `key`.
pub open spec fn spec_lookup_from(
    fields: Seq<(String, JsonValue)>,
    key: Seq<char>,
    i: int,
) -> Option<JsonValue>
    decreases fields.len() - i,
{
    if i < 0 || i >= fields.len() {
        None
    } else if fields[i].0@ == key {
        Some(fields[i].1)
    } else {
        spec_lookup_from(fields, key, i + 1)
    }
}

/// The entry for `key` in an object's field list, if any.
pub open spec fn spec_lookup(fields: Seq<(String, JsonValue)>, key: Seq<char>) -> Option<
    JsonValue,
> {
    spec_lookup_from(fields, key, 0)
}

/// Finds the entry for `key` in an object's field list.
#[verifier::loop_isolation(false)]
fn lookup<'a>(fields: &'a Vec<(String, JsonValue)>, key: &str) -> (r: Option<&'a JsonValue>)
    ensures
        match r {
            Some(jv) => spec_lookup(fields@, key@) == Some(*jv),
            None => spec_lookup(fields@, key@) is None,
        },
{
    let k: String = key.to_owned();
    let mut i: usize = 0;
    while i < fields.len()
        invariant
            i <= fields.len(),
            spec_lookup_from(fields@, key@, i as int) == spec_lookup(fields@, key@),
        decreases fields.len() - i,
    {
        if fields[i].0 == k {
            return Some(&fields[i].1);
        }
        i += 1;
    }
    None
}

/// Whether a JSON value has the shape of a track record: an object whose
/// `timestamp`, `date`, `channel`, `artist` and `song` entries are present
/// and of the right type, with `channel` fitting a 32-bit integer.
pub open spec fn track_shape(v: JsonValue) -> bool {
    match v {
        JsonValue::Obj(fs) => {
            &&& (spec_lookup(fs@, "timestamp"@) matches Some(JsonValue::Int(_)))
            &&& (spec_lookup(fs@, "date"@) matches Some(JsonValue::Str(_)))
            &&& (spec_lookup(fs@, "channel"@) matches Some(JsonValue::Int(n)) && i32::MIN <= n
                <= i32::MAX)
            &&& (spec_lookup(fs@, "artist"@) matches Some(JsonValue::Str(_)))
            &&& (spec_lookup(fs@, "song"@) matches Some(JsonValue::Str(_)))
        },
        _ => false,
    }
}

/// Whether `t` holds exactly the field values of the track record `v`.
pub open spec fn track_matches(t: Track, v: JsonValue) -> bool {
    match v {
        JsonValue::Obj(fs) => {
            &&& (spec_lookup(fs@, "timestamp"@) == Some(JsonValue::Int(t.timestamp)))
            &&& (spec_lookup(fs@, "date"@) matches Some(JsonValue::Str(s)) && s@ == t.date@)
            &&& (spec_lookup(fs@, "channel"@) == Some(JsonValue::Int(t.channel as i64)))
            &&& (spec_lookup(fs@, "artist"@) matches Some(JsonValue::Str(s)) && s@ == t.artist@)
            &&& (spec_lookup(fs@, "song"@) matches Some(JsonValue::Str(s)) && s@ == t.song@)
        },
        _ => false,
    }
}

/// Coerces one JSON value into a [`Track`]: `Some` exactly when the value
/// has the track shape, and then the track holds the value's fields.
pub fn coerce_track(v: &JsonValue) -> (r: Option<Track>)
    ensures
        match r {
            Some(t) => track_shape(*v) && track_matches(t, *v),
            None => !track_shape(*v),
        },
{
    let fields = match v {
        JsonValue::Obj(fs) => fs,
        _ => {
            return None;
        },
    };
    let timestamp: i64 = match lookup(fields, "timestamp") {
        Some(jv) => match jv {
            JsonValue::Int(n) => *n,
            _ => {
                return None;
            },
        },
        None => {
            return None;
        },
    };
    let date: String = match lookup(fields, "date") {
        Some(jv) => match jv {
            JsonValue::Str(s) => s.clone(),
            _ => {
                return None;
            },
        },
        None => {
            return None;
        },
    };
    let channel: i32 = match lookup(fields, "channel") {
        Some(jv) => match jv {
            JsonValue::Int(n) => {
                if *n < i32::MIN as i64 || *n > i32::MAX as i64 {
                    return None;
                }
                *n as i32
            },
            _ => {
                return None;
            },
        },
        None => {
            return None;
        },
    };
    let artist: String = match lookup(fields, "artist") {
        Some(jv) => match jv {
            JsonValue::Str(s) => s.clone(),
            _ => {
                return None;
            },
        },
        None => {
            return None;
        },
    };
    let song: String = match lookup(fields, "song") {
        Some(jv) => match jv {
            JsonValue::Str(s) => s.clone(),
            _ => {
                return None;
            },
        },
        None => {
            return None;
        },
    };
    Some(Track { timestamp, date, channel, artist, song })
}

/// Whether a JSON value has the shape of a playlist record: an object whose
/// `items` entry is an array of track-shaped values and whose `next_token`
/// entry is an integer.
pub open spec fn playlist_shape(v: JsonValue) -> bool {
    match v {
        JsonValue::Obj(fs) => {
            &&& (spec_lookup(fs@, "items"@) matches Some(JsonValue::Arr(a)) && (forall|j: int|
                0 <= j < a@.len() ==> track_shape(#[trigger] a@[j])))
            &&& (spec_lookup(fs@, "next_token"@) matches Some(JsonValue::Int(_)))
        },
        _ => false,
    }
}

/// Whether `p` holds exactly the field values of the playlist record `v`:
/// one track per `items` entry, in order, and the value's `next_token`.
pub open spec fn playlist_matches(p: Playlist, v: JsonValue) -> bool {
    match v {
        JsonValue::Obj(fs) => {
            &&& (spec_lookup(fs@, "items"@) matches Some(JsonValue::Arr(a)) && p.items@.len()
                == a@.len() && (forall|j: int|
                0 <= j < a@.len() ==> track_matches(#[trigger] p.items@[j], a@[j])))
            &&& (spec_lookup(fs@, "next_token"@) == Some(JsonValue::Int(p.next_token)))
        },
        _ => false,
    }
}

/// Coerces a parsed JSON value into a [`Playlist`]: `Ok` exactly when the
/// value has the playlist shape, and then the playlist holds the value's
/// items in order and its continuation token; every shape mismatch is an
/// [`Error::JSONError`].
#[verifier::loop_isolation(false)]
pub fn coerce_playlist(v: &JsonValue) -> (r: Result<Playlist, Error>)
    ensures
        playlist_shape(*v) ==> (r matches Ok(p) && playlist_matches(p, *v)),
        !playlist_shape(*v) ==> (r matches Err(e) && e matches Error::JSONError(_)),
{
    let fields = match v {
        JsonValue::Obj(fs) => fs,
        _ => {
            return Err(Error::JSONError("expected a JSON object".to_owned()));
        },
    };
    let arr = match lookup(fields, "items") {
        Some(jv) => match jv {
            JsonValue::Arr(a) => a,
            _ => {
                return Err(Error::JSONError("expected \"items\" to be an array".to_owned()));
            },
        },
        None => {
            return Err(Error::JSONError("missing field \"items\"".to_owned()));
        },
    };
    let next_token: i64 = match lookup(fields, "next_token") {
        Some(jv) => match jv {
            JsonValue::Int(n) => *n,
            _ => {
                return Err(Error::JSONError("expected \"next_token\" to be an integer".to_owned()));
            },
        },
        None => {
            return Err(Error::JSONError("missing field \"next_token\"".to_owned()));
        },
    };
    let mut items: Vec<Track> = Vec::new();
    let mut i: usize = 0;
    while i < arr.len()
        invariant
            i <= arr.len(),
            items@.len() == i,
            forall|j: int|
                0 <= j < i ==> track_shape(#[trigger] arr@[j]) && track_matches(
                    items@[j],
                    arr@[j],
                ),
        decreases arr.len() - i,
    {
        match coerce_track(&arr[i]) {
            Some(t) => items.push(t),
            None => {
                return Err(Error::JSONError("invalid track entry in \"items\"".to_owned()));
            },
        }
        i += 1;
    }
    Ok(Playlist { items, next_token })
}

/// What decoding a response body must return: the coercion of its parsed
/// value when the body is valid JSON of the playlist shape, and an
/// [`Error::JSONError`] when it is not valid JSON or the shape mismatches.
pub open spec fn decode_outcome(body: Seq<char>, r: Result<Playlist, Error>) -> bool {
    match json_parse(body) {
        Some(v) => {
            &&& (playlist_shape(v) ==> (r matches Ok(p) && playlist_matches(p, v)))
            &&& (!playlist_shape(v) ==> (r matches Err(e) && e matches Error::JSONError(_)))
        },
        None => r matches Err(e) && e matches Error::JSONError(_),
    }
}

/// Decodes a response body: parses it as generic JSON at the trusted
/// boundary and coerces the parsed value into a [`Playlist`].
pub fn decode_playlist(body: &str) -> (r: Result<Playlist, Error>)
    ensures
        decode_outcome(body@, r),
{
    match parse_json(body) {
        Ok(v) => coerce_playlist(&v),
        Err(diagnostic) => Err(Error::JSONError(diagnostic)),
    }
}

} // verus!
