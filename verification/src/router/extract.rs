//! Authentication of incoming federation requests (X-Matrix signatures).
//!
//! A request goes through three steps, each of which may refuse it:
//! [`authenticate`] looks at the endpoint's scheme and the `Authorization`
//! header, [`AwaitingBody::body_read`] builds the signed JSON object once the
//! body is read, and [`AwaitingKeys::keys_fetched`] checks the signature once
//! the origin's keys are fetched. [`finish`] turns the parsed request into the
//! extracted value. The caller performs the I/O between the steps.

use axum_extra::headers::{Authorization, Header};
use ruma::serde::Base64;
use ruma::server_util::authorization::XMatrix;
use ruma::signatures::verify_json;
use ruma::CanonicalJsonValue;
use std::collections::BTreeMap;
use vstd::prelude::*;
use vstd::string::*;

use crate::ids::{server_name_valid, server_part, ServerName};
use crate::router::reply::{ErrorKind, MApiError};
use crate::worker::Executor;

verus! {

/// A request body extracted from an authenticated federation request.
#[derive(Debug)]
pub struct MApi<T> {
    pub body: T,
}

/// How an endpoint authenticates its requests.
#[derive(Clone, Copy, Debug, PartialEq, Eq, Structural)]
pub enum AuthScheme {
    /// No authentication (ruma's `AuthScheme::None`).
    Nothing,
    AccessToken,
    AccessTokenOptional,
    AppserviceToken,
    ServerSignatures,
}

/// The fields of an `Authorization: X-Matrix ...` header.
#[derive(Debug)]
pub struct XMatrixHeader {
    pub origin: ServerName,
    pub destination: Option<ServerName>,
    pub key: String,
    pub sig: String,
}

/// The fields of an X-Matrix header as text.
pub struct XMatrixView {
    pub origin: Seq<char>,
    pub destination: Option<Seq<char>>,
    pub key: Seq<char>,
    pub sig: Seq<char>,
}

impl View for XMatrixHeader {
    type V = XMatrixView;

    open spec fn view(&self) -> XMatrixView {
        XMatrixView {
            origin: self.origin@,
            destination: match self.destination {
                Some(d) => Some(d@),
                None => None,
            },
            key: self.key@,
            sig: self.sig@,
        }
    }
}

/// Declares `ruma::CanonicalJsonValue`, a parsed request body carried inside
/// a [`JsonBody`]; Verus sees nothing inside it.
#[verifier::external_type_specification]
#[verifier::external_body]
pub struct ExCanonicalJsonValue(CanonicalJsonValue);

/// Whether `serde_json` reads `body` as canonical JSON.
pub uninterp spec fn is_canonical_json(body: Seq<u8>) -> bool;

/// A request body that was read as canonical JSON, with the bytes it was
/// read from. Only [`ruma_parse_json`] makes one, so `value` is always what
/// `bytes` parse to.
#[derive(Debug)]
pub struct JsonBody {
    bytes: Vec<u8>,
    value: CanonicalJsonValue,
}

impl View for JsonBody {
    type V = Seq<u8>;

    closed spec fn view(&self) -> Seq<u8> {
        self.bytes@
    }
}

/// Reads `body` with `serde_json::from_slice::<CanonicalJsonValue>`.
/// The contract claims that the result is present exactly when the named
/// predicate holds of the bytes and they are not empty (serde_json refuses
/// empty input), and that it keeps those bytes.
#[verifier::external_body]
fn ruma_parse_json(body: &[u8]) -> (r: Option<JsonBody>)
    ensures
        r is Some <==> (body@.len() > 0 && is_canonical_json(body@)),
        r matches Some(b) ==> b@ == body@,
{
    match serde_json::from_slice::<CanonicalJsonValue>(body) {
        Ok(value) => Some(JsonBody { bytes: body.to_vec(), value }),
        Err(_) => None,
    }
}

/// A member of the signed JSON object of a request.
#[derive(Debug)]
pub enum JsonField {
    /// A JSON string.
    Text(String),
    /// The request body.
    Content(JsonBody),
    /// `{entity: {key_id: sig}}`.
    Signature { entity: String, key_id: String, sig: String },
}

/// A member of the signed JSON object, as plain values.
pub enum FieldView {
    Text(Seq<char>),
    Content(Seq<u8>),
    Signature(Seq<char>, Seq<char>, Seq<char>),
}

impl View for JsonField {
    type V = FieldView;

    open spec fn view(&self) -> FieldView {
        match self {
            JsonField::Text(t) => FieldView::Text(t@),
            JsonField::Content(b) => FieldView::Content(b@),
            JsonField::Signature { entity, key_id, sig } => FieldView::Signature(
                entity@,
                key_id@,
                sig@,
            ),
        }
    }
}

/// The members of a signed JSON object, as plain values.
pub open spec fn fields_view(fields: Seq<(String, JsonField)>) -> Seq<(Seq<char>, FieldView)> {
    fields.map_values(|f: (String, JsonField)| (f.0@, f.1@))
}

/// Public keys by key id, as plain values.
pub open spec fn keys_view(keys: Seq<(String, Vec<u8>)>) -> Seq<(Seq<char>, Seq<u8>)> {
    keys.map_values(|k: (String, Vec<u8>)| (k.0@, k.1@))
}

/// Whether `ruma::signatures::verify_json` accepts the object with these
/// members, under the public key map `{entity: keys}`.
pub uninterp spec fn signatures_verify(
    keys: Seq<(Seq<char>, Seq<u8>)>,
    entity: Seq<char>,
    object: Seq<(Seq<char>, FieldView)>,
) -> bool;

/// Calls `ruma::signatures::verify_json` with the key map `{entity: keys}`
/// and the object whose members are `object`, each converted to its ruma
/// value. The contract claims only that the answer is the named predicate of
/// these arguments: the signature check itself is ruma's.
#[verifier::external_body]
fn ruma_verify_json(entity: &str, keys: &Vec<(String, Vec<u8>)>, object: &Vec<(String, JsonField)>) -> (r: bool)
    ensures
        r == signatures_verify(keys_view(keys@), entity@, fields_view(object@)),
{
    let set = keys.iter().map(|(k, v)| (k.clone(), Base64::new(v.clone()))).collect();
    let object = object.iter().map(|(name, field)| (name.clone(), match field {
        JsonField::Text(t) => CanonicalJsonValue::String(t.clone()),
        JsonField::Content(b) => b.value.clone(),
        JsonField::Signature { entity, key_id, sig } => CanonicalJsonValue::Object(BTreeMap::from(
            [(entity.clone(), CanonicalJsonValue::Object(BTreeMap::from([(key_id.clone(), CanonicalJsonValue::String(sig.clone()))])))]
        ))
    })).collect();
    verify_json(&BTreeMap::from([(entity.to_owned(), set)]), &object).is_ok()
}

/// A refusal with error code `e`.
pub open spec fn refusal<T>(e: ErrorKind) -> Result<T, MApiError<ErrorKind>> {
    Err(MApiError(e))
}

/// What decoding an `Authorization` header value gives: its X-Matrix
/// credentials, or nothing when the value does not hold them.
pub uninterp spec fn x_matrix_fields(value: Seq<u8>) -> Option<XMatrixView>;

/// The fields of an X-Matrix header as decoded text.
pub struct XMatrixText {
    pub origin: String,
    pub destination: Option<String>,
    pub key: String,
    pub sig: String,
}

impl View for XMatrixText {
    type V = XMatrixView;

    open spec fn view(&self) -> XMatrixView {
        XMatrixView {
            origin: self.origin@,
            destination: match self.destination {
                Some(d) => Some(d@),
                None => None,
            },
            key: self.key@,
            sig: self.sig@,
        }
    }
}

/// Decodes an `Authorization` header value with
/// `headers::Authorization::<ruma::server_util::authorization::XMatrix>::decode`,
/// as axum's typed header extraction does: the scheme, then ruma's parser of
/// the X-Matrix parameters. The contract claims that the result is the named
/// function of the bytes, and that its origin and destination are server
/// names that ruma accepts (its parser converts both to `OwnedServerName`,
/// which validates them).
#[verifier::external_body]
fn ruma_decode_x_matrix(value: &[u8]) -> (r: Option<XMatrixText>)
    ensures
        match r {
            Some(t) => x_matrix_fields(value@) == Some(t@),
            None => x_matrix_fields(value@) is None,
        },
        r matches Some(t) ==> server_name_valid(t.origin@),
        r matches Some(t) ==> (t.destination matches Some(d) ==> server_name_valid(d@)),
{
    let value = http::HeaderValue::from_bytes(value).ok()?;
    let h = Authorization::<XMatrix>::decode(&mut std::iter::once(&value)).ok()?.0;
    let destination = h.destination.map(|d| d.as_str().to_owned());
    Some(XMatrixText { origin: h.origin.as_str().to_owned(), destination, key: h.key.to_string(), sig: h.sig })
}

/// Turns decoded header text into a header of checked server names.
fn checked_header(t: XMatrixText) -> (r: Option<XMatrixHeader>)
    requires
        server_name_valid(t.origin@),
        t.destination matches Some(d) ==> server_name_valid(d@),
    ensures
        r matches Some(h) && h@ == t@,
{
    let XMatrixText { origin, destination, key, sig } = t;
    let origin = match ServerName::parse(origin.as_str()) {
        Ok(o) => o,
        Err(_) => {
            proof {
                assert(false);
            }
            return None;
        },
    };
    let destination = match destination {
        Some(d) => match ServerName::parse(d.as_str()) {
            Ok(n) => Some(n),
            Err(_) => {
                proof {
                    assert(false);
                }
                None
            },
        },
        None => None,
    };
    Some(XMatrixHeader { origin, destination, key, sig })
}

/// The X-Matrix credentials of an optional `Authorization` header value.
pub open spec fn decoded_header(value: Option<Vec<u8>>) -> Option<XMatrixView> {
    match value {
        Some(v) => x_matrix_fields(v@),
        None => None,
    }
}

/// Why the scheme and header of a request refuse it, if they do.
pub open spec fn header_refusal(
    scheme: AuthScheme,
    header: Option<XMatrixView>,
    server: Seq<char>,
) -> Option<ErrorKind> {
    if scheme != AuthScheme::ServerSignatures {
        Some(ErrorKind::Forbidden)
    } else {
        match header {
            None => Some(ErrorKind::Unauthorized),
            Some(h) => match h.destination {
                Some(d) => if d != server {
                    Some(ErrorKind::Unauthorized)
                } else {
                    None
                },
                None => None,
            },
        }
    }
}

/// The members of the JSON object that the origin signed: the method, the
/// URI, the body when it is JSON, the signature, our server name as
/// destination and the origin.
pub open spec fn request_object(
    method: Seq<char>,
    uri: Seq<char>,
    header: XMatrixView,
    server: Seq<char>,
    content: Option<Seq<u8>>,
) -> Seq<(Seq<char>, FieldView)> {
    let head = seq![("method"@, FieldView::Text(method)), ("uri"@, FieldView::Text(uri))];
    let body = match content {
        Some(c) => seq![("content"@, FieldView::Content(c))],
        None => Seq::empty(),
    };
    head + body + seq![
        ("signatures"@, FieldView::Signature(header.origin, header.key, header.sig)),
        ("destination"@, FieldView::Text(server)),
        ("origin"@, FieldView::Text(header.origin)),
    ]
}

/// Law: the object whose signature is checked always names this server as
/// destination, names the header's origin as origin, and carries the
/// header's signature under the origin and the header's key id; so a request
/// signed for another server, or by another origin, is never checked against
/// its own signature.
pub proof fn lemma_request_object_binds_servers(
    method: Seq<char>,
    uri: Seq<char>,
    header: XMatrixView,
    server: Seq<char>,
    content: Option<Seq<u8>>,
)
    ensures
        request_object(method, uri, header, server, content).contains(
            ("destination"@, FieldView::Text(server)),
        ),
        request_object(method, uri, header, server, content).contains(
            ("origin"@, FieldView::Text(header.origin)),
        ),
        request_object(method, uri, header, server, content).contains(
            ("signatures"@, FieldView::Signature(header.origin, header.key, header.sig)),
        ),
{
    let o = request_object(method, uri, header, server, content);
    let n = o.len() as int;
    assert(o[n - 2] == ("destination"@, FieldView::Text(server)));
    assert(o[n - 1] == ("origin"@, FieldView::Text(header.origin)));
    assert(o[n - 3] == ("signatures"@, FieldView::Signature(header.origin, header.key, header.sig)));
}

/// `object` has exactly one member value under `name`: it holds
/// `(name, value)`, and every member named `name` carries `value`.
pub open spec fn member_is(object: Seq<(Seq<char>, FieldView)>, name: Seq<char>, value: FieldView) -> bool {
    &&& object.contains((name, value))
    &&& forall|i: int| 0 <= i < object.len() && (#[trigger] object[i]).0 == name ==> object[i].1 == value
}

/// `object` has no member named `name`.
pub open spec fn no_member(object: Seq<(Seq<char>, FieldView)>, name: Seq<char>) -> bool {
    forall|i: int| 0 <= i < object.len() ==> (#[trigger] object[i]).0 != name
}

/// Law: the signed object binds the request itself, whatever it is: its only
/// `method` member is the request's method, its only `uri` member the
/// request's URI, its only `destination` member our server name, its only
/// `origin` member the header's origin, and it has a `content` member exactly
/// when there is content, which is then that content.
pub proof fn lemma_request_object_members(
    method: Seq<char>,
    uri: Seq<char>,
    header: XMatrixView,
    server: Seq<char>,
    content: Option<Seq<u8>>,
)
    ensures
        member_is(request_object(method, uri, header, server, content), "method"@, FieldView::Text(method)),
        member_is(request_object(method, uri, header, server, content), "uri"@, FieldView::Text(uri)),
        member_is(request_object(method, uri, header, server, content), "destination"@, FieldView::Text(server)),
        member_is(request_object(method, uri, header, server, content), "origin"@, FieldView::Text(header.origin)),
        member_is(
            request_object(method, uri, header, server, content),
            "signatures"@,
            FieldView::Signature(header.origin, header.key, header.sig),
        ),
        content matches Some(c) ==> member_is(
            request_object(method, uri, header, server, content),
            "content"@,
            FieldView::Content(c),
        ),
        content is None ==> no_member(request_object(method, uri, header, server, content), "content"@),
{
    reveal_strlit("method");
    reveal_strlit("uri");
    reveal_strlit("content");
    reveal_strlit("signatures");
    reveal_strlit("destination");
    reveal_strlit("origin");
    let o = request_object(method, uri, header, server, content);
    let n = o.len() as int;
    assert("method"@.len() == 6 && "uri"@.len() == 3 && "content"@.len() == 7);
    assert("signatures"@.len() == 10 && "destination"@.len() == 11 && "origin"@.len() == 6);
    assert("method"@ != "uri"@ && "method"@ != "content"@ && "method"@ != "signatures"@);
    assert("method"@ != "destination"@ && "uri"@ != "content"@ && "uri"@ != "signatures"@);
    assert("uri"@ != "destination"@ && "uri"@ != "origin"@ && "content"@ != "signatures"@);
    assert("content"@ != "destination"@ && "content"@ != "origin"@ && "signatures"@ != "destination"@);
    assert("signatures"@ != "origin"@ && "destination"@ != "origin"@);
    assert("method"@[0] != "origin"@[0]);
    assert(o[0] == ("method"@, FieldView::Text(method)));
    assert(o[1] == ("uri"@, FieldView::Text(uri)));
    assert(o[n - 3] == ("signatures"@, FieldView::Signature(header.origin, header.key, header.sig)));
    assert(o[n - 2] == ("destination"@, FieldView::Text(server)));
    assert(o[n - 1] == ("origin"@, FieldView::Text(header.origin)));
    match content {
        Some(c) => {
            assert(n == 6);
            assert(o[2] == ("content"@, FieldView::Content(c)));
        },
        None => {
            assert(n == 5);
        },
    }
}

/// Law: every non-empty body that reads as canonical JSON is signed as the
/// `content` member, whatever JSON it holds; a body that does not read as
/// JSON, or is empty, adds no `content` member.
pub proof fn lemma_json_body_is_content(body: Seq<u8>)
    ensures
        body.len() > 0 && is_canonical_json(body) ==> json_content(body) == Some(body),
        !(body.len() > 0 && is_canonical_json(body)) ==> json_content(body) is None,
{
}

/// Law: a destination equal to our server name is never refused; no
/// destination is never refused; any other destination is refused as
/// unauthorized, once the scheme is server signatures.
pub proof fn lemma_destination_check(header: XMatrixView, server: Seq<char>)
    ensures
        header.destination == Some(server) ==> header_refusal(
            AuthScheme::ServerSignatures,
            Some(header),
            server,
        ) is None,
        header.destination is None ==> header_refusal(
            AuthScheme::ServerSignatures,
            Some(header),
            server,
        ) is None,
        (header.destination matches Some(d) && d != server) ==> header_refusal(
            AuthScheme::ServerSignatures,
            Some(header),
            server,
        ) == Some(ErrorKind::Unauthorized),
{
}

/// The `content` member that a request body gives: the body itself when it
/// reads as canonical JSON, and none otherwise (an empty body never does).
pub open spec fn json_content(body: Seq<u8>) -> Option<Seq<u8>> {
    if body.len() > 0 && is_canonical_json(body) {
        Some(body)
    } else {
        None
    }
}

/// Law: a body that is not JSON signs the same object as an empty body, so
/// both requests get the same answer from the signature check.
pub proof fn lemma_non_json_body_is_empty_body(
    method: Seq<char>,
    uri: Seq<char>,
    header: XMatrixView,
    server: Seq<char>,
    body: Seq<u8>,
)
    requires
        !is_canonical_json(body),
    ensures
        request_object(method, uri, header, server, json_content(body)) == request_object(
            method,
            uri,
            header,
            server,
            json_content(Seq::empty()),
        ),
{
}

/// A request whose header was accepted, waiting for its body.
#[derive(Debug)]
pub struct AwaitingBody {
    header: XMatrixHeader,
    server: ServerName,
    method: String,
    uri: String,
}

/// The request data kept while waiting for the body.
pub struct AwaitingBodyView {
    pub header: XMatrixView,
    pub server: Seq<char>,
    pub method: Seq<char>,
    pub uri: Seq<char>,
}

impl View for AwaitingBody {
    type V = AwaitingBodyView;

    closed spec fn view(&self) -> AwaitingBodyView {
        AwaitingBodyView {
            header: self.header@,
            server: self.server@,
            method: self.method@,
            uri: self.uri@,
        }
    }
}

/// A request whose signed object is built, waiting for the origin's keys.
#[derive(Debug)]
pub struct AwaitingKeys {
    origin: ServerName,
    object: Vec<(String, JsonField)>,
}

/// The origin and the signed object kept while waiting for the keys.
pub struct AwaitingKeysView {
    pub origin: Seq<char>,
    pub object: Seq<(Seq<char>, FieldView)>,
}

impl View for AwaitingKeys {
    type V = AwaitingKeysView;

    closed spec fn view(&self) -> AwaitingKeysView {
        AwaitingKeysView { origin: self.origin@, object: fields_view(self.object@) }
    }
}

/// The first step: the endpoint must use server signatures, the request
/// must carry an `Authorization` header with X-Matrix credentials, and a
/// destination in them must be our server name, the server of the hosted
/// room's alias.
pub fn authenticate<T>(
    ctx: &Executor<T>,
    scheme: AuthScheme,
    authorization: Option<Vec<u8>>,
    method: String,
    uri: String,
) -> (r: Result<AwaitingBody, MApiError<ErrorKind>>)
    ensures
        match header_refusal(scheme, decoded_header(authorization), server_part(ctx.alias@)) {
            Some(e) => r == refusal::<AwaitingBody>(e),
            None => r matches Ok(st) && decoded_header(authorization) matches Some(h) && st@
                == (AwaitingBodyView {
                    header: h,
                    server: server_part(ctx.alias@),
                    method: method@,
                    uri: uri@,
                }),
        },
{
    if scheme != AuthScheme::ServerSignatures {
        return Err(MApiError(ErrorKind::Forbidden));
    }
    let header = match authorization {
        Some(value) => ruma_decode_x_matrix(value.as_slice()),
        None => None,
    };
    let header = match header {
        Some(t) => checked_header(t),
        None => None,
    };
    let header = match header {
        Some(h) => h,
        None => {
            return Err(MApiError(ErrorKind::Unauthorized));
        },
    };
    let server = ctx.server_name();
    let differs = match &header.destination {
        Some(dest) => !dest.same(&server),
        None => false,
    };
    if differs {
        return Err(MApiError(ErrorKind::Unauthorized));
    }
    Ok(AwaitingBody { header, server, method, uri })
}

/// `s` as a `String`.
fn text(s: &str) -> (r: String)
    ensures
        r@ == s@,
{
    String::from_str(s)
}

impl AwaitingBody {
    /// The second step: a body that could not be read refuses the request;
    /// otherwise the signed object is built from the request, with the body
    /// as `content` when it reads as canonical JSON.
    pub fn body_read(self, body: Option<Vec<u8>>) -> (r: Result<AwaitingKeys, MApiError<ErrorKind>>)
        ensures
            match body {
                None => r == refusal::<AwaitingKeys>(ErrorKind::TooLarge),
                Some(b) => r matches Ok(st) && st@ == (AwaitingKeysView {
                    origin: self@.header.origin,
                    object: request_object(
                        self@.method,
                        self@.uri,
                        self@.header,
                        self@.server,
                        json_content(b@),
                    ),
                }),
            },
    {
        let body = match body {
            Some(b) => b,
            None => {
                return Err(MApiError(ErrorKind::TooLarge));
            },
        };
        let AwaitingBody { header, server, method, uri } = self;
        let ghost hv = header@;
        let XMatrixHeader { origin, destination: _, key, sig } = header;
        let mut object: Vec<(String, JsonField)> = Vec::new();
        object.push((text("method"), JsonField::Text(method)));
        object.push((text("uri"), JsonField::Text(uri)));
        let content = ruma_parse_json(body.as_slice());
        let ghost with_content = object@;
        match content {
            Some(c) => object.push((text("content"), JsonField::Content(c))),
            None => {},
        }
        let origin_text = text(origin.as_str());
        object.push((text("signatures"), JsonField::Signature { entity: text(origin.as_str()), key_id: key, sig }));
        object.push((text("destination"), JsonField::Text(text(server.as_str()))));
        object.push((text("origin"), JsonField::Text(origin_text)));
        let st = AwaitingKeys { origin, object };
        assert(fields_view(st.object@) =~= request_object(
            self@.method,
            self@.uri,
            hv,
            self@.server,
            json_content(body@),
        ));
        Ok(st)
    }
}

impl AwaitingKeys {
    /// The server whose keys the signature check needs.
    pub fn origin(&self) -> (r: &ServerName)
        ensures
            r@ == self@.origin,
    {
        &self.origin
    }

    /// The third step: keys that could not be fetched, or a signature that
    /// ruma does not verify with them, refuse the request as unauthorized.
    pub fn keys_fetched(self, keys: Option<Vec<(String, Vec<u8>)>>) -> (r: Result<(), MApiError<ErrorKind>>)
        ensures
            match keys {
                None => r == refusal::<()>(ErrorKind::Unauthorized),
                Some(k) => if signatures_verify(keys_view(k@), self@.origin, self@.object) {
                    r is Ok
                } else {
                    r == refusal::<()>(ErrorKind::Unauthorized)
                },
            },
    {
        let keys = match keys {
            Some(k) => k,
            None => {
                return Err(MApiError(ErrorKind::Unauthorized));
            },
        };
        if ruma_verify_json(self.origin.as_str(), &keys, &self.object) {
            Ok(())
        } else {
            Err(MApiError(ErrorKind::Unauthorized))
        }
    }
}

/// The last step: a request that does not parse as the endpoint's request
/// type is refused as bad JSON.
pub fn finish<R>(parsed: Option<R>) -> (r: Result<MApi<R>, MApiError<ErrorKind>>)
    ensures
        match parsed {
            None => r == refusal::<MApi<R>>(ErrorKind::BadJson),
            Some(v) => r matches Ok(m) && m.body == v,
        },
{
    match parsed {
        None => Err(MApiError(ErrorKind::BadJson)),
        Some(v) => Ok(MApi { body: v }),
    }
}

} // verus!
