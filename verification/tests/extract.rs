use ruma::signatures::{sign_json, Ed25519KeyPair};
use ruma::{CanonicalJsonObject, CanonicalJsonValue};
use std::sync::Arc;

use tuyau::ids::{RoomAlias, UserIdent};
use tuyau::worker::Executor;
use tuyau::router::extract::{authenticate, finish, AuthScheme, AwaitingBody};
use tuyau::router::reply::{ErrorKind, MApiError};

const ORIGIN: &str = "origin.example.org";
const SERVER: &str = "stokejo.com";
const METHOD: &str = "GET";
const URI: &str = "/_matrix/federation/v1/query/directory?room_alias=%23stokejo%3Astokejo.com";

/// The context of a server hosting `#room:<server>`.
fn ctx(server: &str) -> Executor<()> {
    Executor::new(
        Arc::new(()),
        RoomAlias::parse(&format!("#room:{server}")).unwrap(),
        UserIdent::parse("@admin:example.org").unwrap(),
    )
    .unwrap()
}

fn header(destination: Option<&str>, sig: &str) -> Option<Vec<u8>> {
    let mut value = format!("X-Matrix origin=\"{ORIGIN}\"");
    if let Some(d) = destination {
        value += &format!(",destination=\"{d}\"");
    }
    value += &format!(",key=\"ed25519:1\",sig=\"{sig}\"");
    Some(value.into_bytes())
}

fn accepted(h: Option<Vec<u8>>) -> AwaitingBody {
    authenticate(&ctx(SERVER), AuthScheme::ServerSignatures, h, METHOD.to_string(), URI.to_string())
        .unwrap()
}

/// Signs the request object as the origin server would, returning the
/// signature and the public key.
fn sign(content: Option<&str>) -> (String, Vec<u8>) {
    let doc = Ed25519KeyPair::generate().unwrap();
    let pair = Ed25519KeyPair::from_der(&doc, "1".to_string()).unwrap();
    let mut object = CanonicalJsonObject::new();
    object.insert("method".into(), CanonicalJsonValue::String(METHOD.into()));
    object.insert("uri".into(), CanonicalJsonValue::String(URI.into()));
    object.insert("destination".into(), CanonicalJsonValue::String(SERVER.into()));
    object.insert("origin".into(), CanonicalJsonValue::String(ORIGIN.into()));
    if let Some(c) = content {
        object.insert("content".into(), serde_json::from_str(c).unwrap());
    }
    sign_json(ORIGIN, &pair, &mut object).unwrap();
    let CanonicalJsonValue::Object(sigs) = &object["signatures"] else { panic!() };
    let CanonicalJsonValue::Object(set) = &sigs[ORIGIN] else { panic!() };
    let CanonicalJsonValue::String(sig) = &set["ed25519:1"] else { panic!() };
    (sig.clone(), pair.public_key().to_vec())
}

#[test]
fn wrong_scheme_is_forbidden() {
    let r = authenticate(&ctx(SERVER), AuthScheme::AccessToken, header(None, "x"), String::new(), String::new());
    assert!(matches!(r, Err(MApiError(ErrorKind::Forbidden))));
    let r = authenticate(&ctx(SERVER), AuthScheme::Nothing, None, String::new(), String::new());
    assert!(matches!(r, Err(MApiError(ErrorKind::Forbidden))));
}

#[test]
fn missing_header_is_unauthorized() {
    let r = authenticate(&ctx(SERVER), AuthScheme::ServerSignatures, None, String::new(), String::new());
    assert!(matches!(r, Err(MApiError(ErrorKind::Unauthorized))));
}

#[test]
fn malformed_header_is_unauthorized() {
    for value in ["Bearer abc", "X-Matrix key=\"ed25519:1\",sig=\"x\"", "X-Matrix origin=\"not a server\",key=\"ed25519:1\",sig=\"x\"", ""] {
        let r = authenticate(
            &ctx(SERVER),
            AuthScheme::ServerSignatures,
            Some(value.as_bytes().to_vec()),
            String::new(),
            String::new(),
        );
        assert!(matches!(r, Err(MApiError(ErrorKind::Unauthorized))), "{value}");
    }
}

#[test]
fn header_origin_is_decoded() {
    let st = accepted(Some(b"X-Matrix origin=other.example.org:8448,key=ed25519:1,sig=x".to_vec()))
        .body_read(Some(Vec::new()))
        .unwrap();
    assert_eq!(st.origin().as_str(), "other.example.org:8448");
}

#[test]
fn other_destination_is_unauthorized() {
    let r = authenticate(
        &ctx(SERVER),
        AuthScheme::ServerSignatures,
        header(Some("elsewhere.org"), "x"),
        String::new(),
        String::new(),
    );
    assert!(matches!(r, Err(MApiError(ErrorKind::Unauthorized))));
}

#[test]
fn own_or_absent_destination_is_accepted() {
    let _ = accepted(header(Some(SERVER), "x"));
    let _ = accepted(header(None, "x"));
}

#[test]
fn unread_body_is_too_large() {
    let r = accepted(header(None, "x")).body_read(None);
    assert!(matches!(r, Err(MApiError(ErrorKind::TooLarge))));
}

#[test]
fn keys_not_fetched_is_unauthorized() {
    let st = accepted(header(None, "x")).body_read(Some(Vec::new())).unwrap();
    assert_eq!(st.origin().as_str(), ORIGIN);
    assert!(matches!(st.keys_fetched(None), Err(MApiError(ErrorKind::Unauthorized))));
}

#[test]
fn valid_signature_is_accepted() {
    let (sig, key) = sign(None);
    let st = accepted(header(Some(SERVER), &sig)).body_read(Some(Vec::new())).unwrap();
    assert!(st.keys_fetched(Some(vec![("ed25519:1".to_string(), key)])).is_ok());
}

#[test]
fn valid_signature_with_json_content_is_accepted() {
    let body = r#"{"a":[1,2],"b":"c"}"#;
    let (sig, key) = sign(Some(body));
    let st = accepted(header(None, &sig)).body_read(Some(body.as_bytes().to_vec())).unwrap();
    assert!(st.keys_fetched(Some(vec![("ed25519:1".to_string(), key)])).is_ok());
}

#[test]
fn non_json_body_is_not_signed_content() {
    let (sig, key) = sign(None);
    let st = accepted(header(None, &sig)).body_read(Some(b"not json".to_vec())).unwrap();
    assert!(st.keys_fetched(Some(vec![("ed25519:1".to_string(), key)])).is_ok());
}

#[test]
fn empty_and_non_json_bodies_sign_alike() {
    let (sig, key) = sign(None);
    for body in [Vec::new(), b"not json".to_vec(), b"{".to_vec()] {
        let st = accepted(header(None, &sig)).body_read(Some(body)).unwrap();
        assert!(st.keys_fetched(Some(vec![("ed25519:1".to_string(), key.clone())])).is_ok());
    }
}

#[test]
fn content_changed_after_signing_is_unauthorized() {
    let (sig, key) = sign(Some(r#"{"a":1}"#));
    let st = accepted(header(None, &sig)).body_read(Some(br#"{"a":2}"#.to_vec())).unwrap();
    let r = st.keys_fetched(Some(vec![("ed25519:1".to_string(), key)]));
    assert!(matches!(r, Err(MApiError(ErrorKind::Unauthorized))));
}

#[test]
fn signature_for_other_destination_is_unauthorized() {
    let (sig, key) = sign(None);
    let st = authenticate(
        &ctx("other.org"),
        AuthScheme::ServerSignatures,
        header(None, &sig),
        METHOD.to_string(),
        URI.to_string(),
    )
    .unwrap()
    .body_read(Some(Vec::new()))
    .unwrap();
    let r = st.keys_fetched(Some(vec![("ed25519:1".to_string(), key)]));
    assert!(matches!(r, Err(MApiError(ErrorKind::Unauthorized))));
}

#[test]
fn unknown_key_is_unauthorized() {
    let (sig, key) = sign(None);
    let st = accepted(header(None, &sig)).body_read(Some(Vec::new())).unwrap();
    let r = st.keys_fetched(Some(vec![("ed25519:2".to_string(), key)]));
    assert!(matches!(r, Err(MApiError(ErrorKind::Unauthorized))));
}

#[test]
fn finish_wraps_or_refuses() {
    assert!(matches!(finish::<u8>(None), Err(MApiError(ErrorKind::BadJson))));
    assert_eq!(finish(Some(5u8)).unwrap().body, 5);
}
