use std::cell::RefCell;

use suplapi::data::{Playlist, Track};
use suplapi::http::{HttpClient, TransportFailure};
use suplapi::{query_args, Error, SuplAPI};

/// A transport that returns a fixed body and records the request it saw.
struct StubTransport {
    body: String,
    seen_url: RefCell<String>,
    seen_args: RefCell<Vec<(String, String)>>,
}

impl StubTransport {
    fn returning(body: &str) -> StubTransport {
        StubTransport {
            body: body.to_string(),
            seen_url: RefCell::new(String::new()),
            seen_args: RefCell::new(Vec::new()),
        }
    }
}

impl HttpClient for StubTransport {
    fn user_agent(&mut self, _user_agent: String) {}

    fn get(&self, url: &str, args: &Vec<(String, String)>) -> Result<String, TransportFailure> {
        *self.seen_url.borrow_mut() = url.to_string();
        *self.seen_args.borrow_mut() = args.clone();
        Ok(self.body.clone())
    }
}

/// A transport that fails every call, as on a non-success status.
#[derive(Default)]
struct FailingTransport;

impl HttpClient for FailingTransport {
    fn user_agent(&mut self, _user_agent: String) {}

    fn get(&self, _url: &str, _args: &Vec<(String, String)>) -> Result<String, TransportFailure> {
        Err(TransportFailure {
            message: "bad status".to_string(),
        })
    }
}

fn pairs(args: &[(String, String)]) -> Vec<(&str, &str)> {
    args.iter()
        .map(|(k, v)| (k.as_str(), v.as_str()))
        .collect()
}

#[test]
fn query_args_without_token() {
    let args = query_args(70, 20, None);
    assert_eq!(pairs(&args), vec![("channel", "70"), ("limit", "20")]);
}

#[test]
fn query_args_with_token() {
    let args = query_args(70, 20, Some(5));
    assert_eq!(
        pairs(&args),
        vec![("channel", "70"), ("limit", "20"), ("next_token", "5")]
    );
}

#[test]
fn query_args_negative_values() {
    let args = query_args(-7, -1, Some(-305));
    assert_eq!(
        pairs(&args),
        vec![("channel", "-7"), ("limit", "-1"), ("next_token", "-305")]
    );
}

#[test]
fn query_args_extreme_token() {
    let args = query_args(i32::MIN, i32::MAX, Some(i64::MIN));
    assert_eq!(
        pairs(&args),
        vec![
            ("channel", "-2147483648"),
            ("limit", "2147483647"),
            ("next_token", "-9223372036854775808"),
        ]
    );
    let args = query_args(0, 0, Some(i64::MAX));
    assert_eq!(
        pairs(&args),
        vec![
            ("channel", "0"),
            ("limit", "0"),
            ("next_token", "9223372036854775807"),
        ]
    );
}

#[test]
fn playlist_url_composed_from_base_host() {
    let supla = SuplAPI::new(StubTransport::returning(""));
    assert_eq!(supla.base_url, ".nm-services.nelonenmedia.fi");
    assert_eq!(
        supla.playlist_url(),
        "https://supla-playlist.nm-services.nelonenmedia.fi"
    );
}

#[test]
fn playlist_end_to_end() {
    let body = "{\"items\":[{\"timestamp\":1,\"date\":\"2020-01-01\",\"channel\":70,\"artist\":\"A\",\"song\":\"B\"}],\"next_token\":5}";
    let supla = SuplAPI::new(StubTransport::returning(body));
    let playlist: Playlist = supla.playlist(70, 20, None).unwrap();
    assert_eq!(playlist.next_token, 5);
    assert_eq!(
        playlist.items,
        vec![Track {
            timestamp: 1,
            date: "2020-01-01".to_string(),
            channel: 70,
            artist: "A".to_string(),
            song: "B".to_string(),
        }]
    );
    assert_eq!(
        *supla.client.seen_url.borrow(),
        "https://supla-playlist.nm-services.nelonenmedia.fi/playlist?"
    );
    assert_eq!(
        pairs(&supla.client.seen_args.borrow()),
        vec![("channel", "70"), ("limit", "20")]
    );
}

#[test]
fn playlist_sends_token_verbatim() {
    let body = "{\"items\":[],\"next_token\":6}";
    let supla = SuplAPI::new(StubTransport::returning(body));
    let playlist = supla.playlist(70, 20, Some(5)).unwrap();
    assert_eq!(playlist.next_token, 6);
    assert_eq!(playlist.items.len(), 0);
    assert_eq!(
        pairs(&supla.client.seen_args.borrow()),
        vec![("channel", "70"), ("limit", "20"), ("next_token", "5")]
    );
}

#[test]
fn transport_failure_yields_http_error() {
    let supla = SuplAPI::new(FailingTransport);
    let err = supla.playlist(70, 20, None).unwrap_err();
    assert_eq!(err, Error::HTTPError);
}

#[test]
fn default_constructor_uses_default_transport() {
    let supla = SuplAPI::<FailingTransport>::default();
    assert_eq!(supla.base_url, ".nm-services.nelonenmedia.fi");
    let err = supla.playlist(70, 20, None).unwrap_err();
    assert_eq!(err, Error::HTTPError);
}

#[test]
fn invalid_json_body_yields_json_error() {
    let supla = SuplAPI::new(StubTransport::returning("not json at all"));
    let err = supla.playlist(70, 20, None).unwrap_err();
    assert!(matches!(err, Error::JSONError(_)));
}

#[test]
fn valid_json_of_wrong_shape_yields_json_error() {
    let supla = SuplAPI::new(StubTransport::returning("{\"items\":[]}"));
    let err = supla.playlist(70, 20, None).unwrap_err();
    assert!(matches!(err, Error::JSONError(_)));
}
