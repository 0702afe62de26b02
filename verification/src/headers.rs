//! Transport field names, decode errors, and the per-field token codecs.

use vstd::prelude::*;
use vstd::string::StrSliceExecFns;
use vstd::utf8::encode_utf8;

verus! {

use crate::codec::{
    ascii_bytes, bytes_eq, decode_ascii_text, decode_utf8_text, lemma_encode_utf8_injective,
    parse_i32, spec_parse_i32,
};
use vstd::utf8::{decode_utf8, valid_utf8};

/// The transport fields a request context is carried in.
#[derive(Clone, Copy, Debug, PartialEq, Eq, Structural)]
pub enum FieldName {
    /// `event-domain`: a domain where the event can be found.
    EventDomain,
    /// `event-slug`: the event's slug.
    EventSlug,
    /// `event-organization-id`: the ID of the organization that runs the event.
    EventOrganizationId,
    /// `user-session`: the caller's authentication stage.
    UserSession,
    /// `oauth-provider-slug`: the provider the caller authenticated with.
    OAuthProviderSlug,
    /// `oauth-user-id`: the caller's ID according to the provider.
    OAuthUserId,
    /// `oauth-user-email`: the caller's email according to the provider.
    OAuthUserEmail,
    /// `request-scope`: the authorization boundary of the request.
    RequestScope,
    /// `user-id`: the caller's ID.
    UserId,
    /// `user-given-name`: the caller's given/first name.
    UserGivenName,
    /// `user-family-name`: the caller's family/last name.
    UserFamilyName,
    /// `user-email`: the caller's primary email.
    UserEmail,
    /// `user-role`: the caller's role for the scope.
    UserRole,
    /// `user-is-admin`: whether the caller is an admin.
    UserIsAdmin,
}

impl FieldName {
    /// The field's canonical lowercase name on the wire.
    pub open spec fn chars(self) -> Seq<char> {
        match self {
            FieldName::EventDomain => "event-domain"@,
            FieldName::EventSlug => "event-slug"@,
            FieldName::EventOrganizationId => "event-organization-id"@,
            FieldName::UserSession => "user-session"@,
            FieldName::OAuthProviderSlug => "oauth-provider-slug"@,
            FieldName::OAuthUserId => "oauth-user-id"@,
            FieldName::OAuthUserEmail => "oauth-user-email"@,
            FieldName::RequestScope => "request-scope"@,
            FieldName::UserId => "user-id"@,
            FieldName::UserGivenName => "user-given-name"@,
            FieldName::UserFamilyName => "user-family-name"@,
            FieldName::UserEmail => "user-email"@,
            FieldName::UserRole => "user-role"@,
            FieldName::UserIsAdmin => "user-is-admin"@,
        }
    }

    /// The field's canonical lowercase name on the wire.
    pub fn as_str(self) -> (r: &'static str)
        ensures
            r@ == self.chars(),
    {
        match self {
            FieldName::EventDomain => "event-domain",
            FieldName::EventSlug => "event-slug",
            FieldName::EventOrganizationId => "event-organization-id",
            FieldName::UserSession => "user-session",
            FieldName::OAuthProviderSlug => "oauth-provider-slug",
            FieldName::OAuthUserId => "oauth-user-id",
            FieldName::OAuthUserEmail => "oauth-user-email",
            FieldName::RequestScope => "request-scope",
            FieldName::UserId => "user-id",
            FieldName::UserGivenName => "user-given-name",
            FieldName::UserFamilyName => "user-family-name",
            FieldName::UserEmail => "user-email",
            FieldName::UserRole => "user-role",
            FieldName::UserIsAdmin => "user-is-admin",
        }
    }
}

/// Why a single field's raw value failed to decode.
#[derive(Clone, Copy, Debug, PartialEq, Eq, Structural)]
pub enum ValueError {
    /// An ASCII text field held a byte outside the ASCII range.
    NotAscii,
    /// A UTF-8 text field held an invalid byte sequence.
    NotUtf8,
    /// An integer field did not parse as a decimal 32-bit integer.
    NotAnInteger,
    /// A closed-enumeration field held none of its tokens.
    UnknownToken,
}

/// How a field extraction failed.
#[derive(Clone, Copy, Debug, PartialEq, Eq, Structural)]
pub enum ErrorKind {
    /// The field was missing from the request.
    Missing,
    /// The field was present but its value was malformed.
    Error(ValueError),
}

/// A failed field extraction: the field that caused it, and why.
#[derive(Clone, Copy, Debug, PartialEq, Eq, Structural)]
pub struct Error {
    /// Name of the field that caused the error.
    pub name: FieldName,
    /// Reason why the field extraction failed.
    pub kind: ErrorKind,
}

impl Error {
    /// A missing-field error for the given field.
    pub fn missing(name: FieldName) -> (r: Error)
        ensures
            r == (Error { name, kind: ErrorKind::Missing }),
    {
        Error { name, kind: ErrorKind::Missing }
    }

    /// A malformed-value error for the given field.
    pub fn malformed(name: FieldName, why: ValueError) -> (r: Error)
        ensures
            r == (Error { name, kind: ErrorKind::Error(why) }),
    {
        Error { name, kind: ErrorKind::Error(why) }
    }
}

/// True when a raw value equals the UTF-8 bytes of the given token.
pub(crate) fn token_matches(v: &[u8], tok: &str) -> (r: bool)
    ensures
        r == (v@ == encode_utf8(tok@)),
{
    bytes_eq(v, tok.as_bytes())
}

/// The caller's authentication stage, as carried in the `user-session`
/// field.
#[derive(Clone, Copy, Debug, PartialEq, Eq, Structural)]
pub enum UserSession {
    /// The user is unauthenticated.
    Unauthenticated,
    /// The user is logging in.
    OAuth,
    /// The user needs to complete registration.
    RegistrationNeeded,
    /// The user is fully authenticated.
    Authenticated,
}

impl UserSession {
    /// The stage's canonical token on the wire.
    pub open spec fn token(self) -> Seq<char> {
        match self {
            UserSession::Unauthenticated => "unauthenticated"@,
            UserSession::OAuth => "oauth"@,
            UserSession::RegistrationNeeded => "registration-needed"@,
            UserSession::Authenticated => "authenticated"@,
        }
    }

    /// Which stage a raw value decodes to, if any.
    pub open spec fn spec_decode(b: Seq<u8>) -> Option<UserSession> {
        if b == encode_utf8("unauthenticated"@) {
            Some(UserSession::Unauthenticated)
        } else if b == encode_utf8("oauth"@) {
            Some(UserSession::OAuth)
        } else if b == encode_utf8("registration-needed"@) {
            Some(UserSession::RegistrationNeeded)
        } else if b == encode_utf8("authenticated"@) {
            Some(UserSession::Authenticated)
        } else {
            None
        }
    }

    /// Decode a raw value, case-sensitively, against the four stage tokens.
    pub fn decode(b: &[u8]) -> (r: Result<UserSession, ValueError>)
        ensures
            r == (match UserSession::spec_decode(b@) {
                Some(s) => Ok::<UserSession, ValueError>(s),
                None => Err::<UserSession, ValueError>(ValueError::UnknownToken),
            }),
    {
        if token_matches(b, "unauthenticated") {
            Ok(UserSession::Unauthenticated)
        } else if token_matches(b, "oauth") {
            Ok(UserSession::OAuth)
        } else if token_matches(b, "registration-needed") {
            Ok(UserSession::RegistrationNeeded)
        } else if token_matches(b, "authenticated") {
            Ok(UserSession::Authenticated)
        } else {
            Err(ValueError::UnknownToken)
        }
    }

    /// Encode the stage as its canonical token.
    pub fn encode(self) -> (r: Vec<u8>)
        ensures
            r@ == encode_utf8(self.token()),
    {
        match self {
            UserSession::Unauthenticated => "unauthenticated".as_bytes_vec(),
            UserSession::OAuth => "oauth".as_bytes_vec(),
            UserSession::RegistrationNeeded => "registration-needed".as_bytes_vec(),
            UserSession::Authenticated => "authenticated".as_bytes_vec(),
        }
    }

    /// Decoding an encoded stage token gives the stage back.
    pub proof fn lemma_round_trip(self)
        ensures
            UserSession::spec_decode(encode_utf8(self.token())) == Some(self),
    {
        reveal_strlit("unauthenticated");
        reveal_strlit("oauth");
        reveal_strlit("registration-needed");
        reveal_strlit("authenticated");
        lemma_encode_utf8_injective(self.token(), "unauthenticated"@);
        lemma_encode_utf8_injective(self.token(), "oauth"@);
        lemma_encode_utf8_injective(self.token(), "registration-needed"@);
        lemma_encode_utf8_injective(self.token(), "authenticated"@);
    }
}

/// The authorization boundary of a request, as carried in the
/// `request-scope` field.
#[derive(Clone, Copy, Debug, PartialEq, Eq, Structural)]
pub enum RequestScope {
    /// A request with no restrictions on data access.
    Admin,
    /// A request restricted to the current user.
    User,
    /// A request restricted to the current event.
    Event,
}

impl RequestScope {
    /// The boundary's canonical token on the wire.
    pub open spec fn token(self) -> Seq<char> {
        match self {
            RequestScope::Admin => "admin"@,
            RequestScope::User => "user"@,
            RequestScope::Event => "event"@,
        }
    }

    /// Which boundary a raw value decodes to, if any.
    pub open spec fn spec_decode(b: Seq<u8>) -> Option<RequestScope> {
        if b == encode_utf8("admin"@) {
            Some(RequestScope::Admin)
        } else if b == encode_utf8("user"@) {
            Some(RequestScope::User)
        } else if b == encode_utf8("event"@) {
            Some(RequestScope::Event)
        } else {
            None
        }
    }

    /// Decode a raw value, case-sensitively, against the three boundary
    /// tokens.
    pub fn decode(b: &[u8]) -> (r: Result<RequestScope, ValueError>)
        ensures
            r == (match RequestScope::spec_decode(b@) {
                Some(s) => Ok::<RequestScope, ValueError>(s),
                None => Err::<RequestScope, ValueError>(ValueError::UnknownToken),
            }),
    {
        if token_matches(b, "admin") {
            Ok(RequestScope::Admin)
        } else if token_matches(b, "user") {
            Ok(RequestScope::User)
        } else if token_matches(b, "event") {
            Ok(RequestScope::Event)
        } else {
            Err(ValueError::UnknownToken)
        }
    }

    /// Encode the boundary as its canonical token.
    pub fn encode(self) -> (r: Vec<u8>)
        ensures
            r@ == encode_utf8(self.token()),
    {
        match self {
            RequestScope::Admin => "admin".as_bytes_vec(),
            RequestScope::User => "user".as_bytes_vec(),
            RequestScope::Event => "event".as_bytes_vec(),
        }
    }

    /// Decoding an encoded boundary token gives the boundary back.
    pub proof fn lemma_round_trip(self)
        ensures
            RequestScope::spec_decode(encode_utf8(self.token())) == Some(self),
    {
        reveal_strlit("admin");
        reveal_strlit("user");
        reveal_strlit("event");
        lemma_encode_utf8_injective(self.token(), "admin"@);
        lemma_encode_utf8_injective(self.token(), "user"@);
        lemma_encode_utf8_injective(self.token(), "event"@);
    }
}

/// Whether the caller is an admin, as carried in the `user-is-admin`
/// field.
#[derive(Clone, Copy, Debug, PartialEq, Eq, Structural)]
pub struct UserIsAdmin(pub bool);

impl UserIsAdmin {
    /// The flag's canonical token on the wire.
    pub open spec fn token(self) -> Seq<char> {
        if self.0 {
            "true"@
        } else {
            "false"@
        }
    }

    /// Which flag a raw value decodes to, if any.
    pub open spec fn spec_decode(b: Seq<u8>) -> Option<UserIsAdmin> {
        if b == encode_utf8("true"@) {
            Some(UserIsAdmin(true))
        } else if b == encode_utf8("false"@) {
            Some(UserIsAdmin(false))
        } else {
            None
        }
    }

    /// Decode a raw value, case-sensitively, against `true` and `false`.
    pub fn decode(b: &[u8]) -> (r: Result<UserIsAdmin, ValueError>)
        ensures
            r == (match UserIsAdmin::spec_decode(b@) {
                Some(s) => Ok::<UserIsAdmin, ValueError>(s),
                None => Err::<UserIsAdmin, ValueError>(ValueError::UnknownToken),
            }),
    {
        if token_matches(b, "true") {
            Ok(UserIsAdmin(true))
        } else if token_matches(b, "false") {
            Ok(UserIsAdmin(false))
        } else {
            Err(ValueError::UnknownToken)
        }
    }

    /// Encode the flag as its canonical token.
    pub fn encode(self) -> (r: Vec<u8>)
        ensures
            r@ == encode_utf8(self.token()),
    {
        if self.0 {
            "true".as_bytes_vec()
        } else {
            "false".as_bytes_vec()
        }
    }

    /// Decoding an encoded flag token gives the flag back.
    pub proof fn lemma_round_trip(self)
        ensures
            UserIsAdmin::spec_decode(encode_utf8(self.token())) == Some(self),
    {
        reveal_strlit("true");
        reveal_strlit("false");
        lemma_encode_utf8_injective(self.token(), "true"@);
        lemma_encode_utf8_injective(self.token(), "false"@);
    }

    /// Unwrap the flag.
    pub fn into_inner(self) -> (r: bool)
        ensures
            r == self.0,
    {
        self.0
    }
}

impl From<bool> for UserIsAdmin {
    fn from(value: bool) -> (r: UserIsAdmin) {
        UserIsAdmin(value)
    }
}

impl vstd::std_specs::convert::FromSpecImpl<bool> for UserIsAdmin {
    open spec fn obeys_from_spec() -> bool {
        true
    }

    open spec fn from_spec(t: bool) -> UserIsAdmin {
        UserIsAdmin(t)
    }
}

/// Bytes the transport accepts in a field value.
pub open spec fn wire_value_byte(b: u8) -> bool {
    b == 9 || (32 <= b && b != 127)
}

/// True when every byte of a field value is accepted by the transport.
pub open spec fn wire_value(v: Seq<u8>) -> bool {
    forall|i: int| 0 <= i < v.len() ==> wire_value_byte(#[trigger] v[i])
}

/// Check whether the transport accepts every byte of a field value.
pub fn wire_value_ok(v: &[u8]) -> (r: bool)
    ensures
        r == wire_value(v@),
{
    let mut i: usize = 0;
    while i < v.len()
        invariant
            0 <= i <= v@.len(),
            forall|j: int| 0 <= j < i ==> wire_value_byte(#[trigger] v@[j]),
        decreases v@.len() - i,
    {
        let b = v[i];
        if !(b == 9 || (32 <= b && b != 127)) {
            return false;
        }
        i += 1;
    }
    true
}

/// Check whether the transport accepts every byte of a text field's
/// encoding.
pub fn text_wire_ok(s: &str) -> (r: bool)
    ensures
        r == wire_value(encode_utf8(s@)),
{
    wire_value_ok(s.as_bytes())
}

#[verifier::external_type_specification]
#[verifier::external_body]
pub struct ExHeaderValue(http::header::HeaderValue);

#[verifier::external_type_specification]
#[verifier::external_body]
#[verifier::reject_recursive_types(T)]
pub struct ExHeaderMap<T>(http::HeaderMap<T>);

/// What a header map holds: the first value stored under each present
/// name.
pub uninterp spec fn header_entries(m: http::HeaderMap) -> Map<Seq<char>, Seq<u8>>;

/// How many name/value entries a header map stores, duplicate names
/// counted separately.
pub uninterp spec fn header_count(m: http::HeaderMap) -> nat;

/// The model of a map with no entries.
pub open spec fn empty_entries() -> Map<Seq<char>, Seq<u8>> {
    Map::empty()
}

/// Relies on `http::HeaderMap::new`: a new map holds nothing.
#[verifier::external_body]
pub fn new_header_map() -> (r: http::HeaderMap)
    ensures
        header_entries(r) == empty_entries(),
        header_count(r) == 0,
{
    http::HeaderMap::new()
}

/// Relies on `http::HeaderMap::get`: returns the first value stored under
/// the name when the name is present, and nothing otherwise.
#[verifier::external_body]
pub fn get_raw(m: &http::HeaderMap, f: FieldName) -> (r: Option<Vec<u8>>)
    ensures
        match r {
            Some(v) => header_entries(*m).contains_key(f.chars()) && v@ == header_entries(
                *m,
            )[f.chars()],
            None => !header_entries(*m).contains_key(f.chars()),
        },
{
    m.get(f.as_str()).map(|v| v.as_bytes().to_vec())
}

/// Relies on `http::HeaderMap::insert`, with `http::HeaderName::from_bytes`
/// and `http::HeaderValue::from_bytes` converting the arguments: the named
/// header afterwards holds exactly the given value, all previously stored
/// values under that name are gone, and nothing else changes. Every
/// canonical field name is a valid lowercase header name, and the value
/// bytes are accepted because of the `wire_value` precondition, so neither
/// conversion fails. `insert` panics only when growing the map's table
/// past its hard size limit of 32768 slots; the grow happens once the
/// stored entries reach the table's usable capacity (three quarters of the
/// slots), and in the map's collision-displacement state already when five
/// times the entry count reaches the slot count, i.e. from 6554 entries
/// up. The entry bound stays below that smaller threshold, so the insert
/// never attempts a grow it cannot be granted.
#[verifier::external_body]
pub fn set_raw(m: &mut http::HeaderMap, f: FieldName, value: &[u8])
    requires
        wire_value(value@),
        header_count(*old(m)) < 6554,
    ensures
        header_entries(*final(m)) == header_entries(*old(m)).insert(f.chars(), value@),
        header_count(*final(m)) <= header_count(*old(m)) + 1,
{
    let name = http::header::HeaderName::from_bytes(f.as_str().as_bytes()).expect(
        "canonical field names are valid header names",
    );
    let val = http::header::HeaderValue::from_bytes(value).expect(
        "field value bytes are transport-safe",
    );
    m.insert(name, val);
}

/// The named field's raw value in the map model, if present.
pub open spec fn entry_of(m: Map<Seq<char>, Seq<u8>>, f: FieldName) -> Option<Seq<u8>> {
    if m.contains_key(f.chars()) {
        Some(m[f.chars()])
    } else {
        None
    }
}

/// What extracting an ASCII text field returns: missing when absent, the
/// characters when every byte is ASCII, malformed otherwise.
pub open spec fn spec_get_ascii(m: Map<Seq<char>, Seq<u8>>, f: FieldName) -> Result<
    Seq<char>,
    Error,
> {
    match entry_of(m, f) {
        None => Err(Error { name: f, kind: ErrorKind::Missing }),
        Some(b) => if ascii_bytes(b) {
            Ok(decode_utf8(b))
        } else {
            Err(Error { name: f, kind: ErrorKind::Error(ValueError::NotAscii) })
        },
    }
}

/// What extracting a UTF-8 text field returns: missing when absent, the
/// characters when the bytes are valid UTF-8, malformed otherwise.
pub open spec fn spec_get_utf8(m: Map<Seq<char>, Seq<u8>>, f: FieldName) -> Result<
    Seq<char>,
    Error,
> {
    match entry_of(m, f) {
        None => Err(Error { name: f, kind: ErrorKind::Missing }),
        Some(b) => if valid_utf8(b) {
            Ok(decode_utf8(b))
        } else {
            Err(Error { name: f, kind: ErrorKind::Error(ValueError::NotUtf8) })
        },
    }
}

/// What extracting a decimal 32-bit integer field returns: missing when
/// absent, the integer when the bytes parse, malformed otherwise.
pub open spec fn spec_get_i32(m: Map<Seq<char>, Seq<u8>>, f: FieldName) -> Result<i32, Error> {
    match entry_of(m, f) {
        None => Err(Error { name: f, kind: ErrorKind::Missing }),
        Some(b) => match spec_parse_i32(b) {
            Some(n) => Ok(n),
            None => Err(Error { name: f, kind: ErrorKind::Error(ValueError::NotAnInteger) }),
        },
    }
}

/// Extract an ASCII text field, exactly as [`spec_get_ascii`] says.
pub fn get_ascii(m: &http::HeaderMap, f: FieldName) -> (r: Result<String, Error>)
    ensures
        match r {
            Ok(s) => spec_get_ascii(header_entries(*m), f) == Ok::<Seq<char>, Error>(s@),
            Err(e) => spec_get_ascii(header_entries(*m), f) == Err::<Seq<char>, Error>(e),
        },
{
    match get_raw(m, f) {
        None => Err(Error::missing(f)),
        Some(v) => match decode_ascii_text(v.as_slice()) {
            Ok(s) => Ok(s),
            Err(e) => Err(Error::malformed(f, e)),
        },
    }
}

/// Extract a UTF-8 text field, exactly as [`spec_get_utf8`] says.
pub fn get_utf8(m: &http::HeaderMap, f: FieldName) -> (r: Result<String, Error>)
    ensures
        match r {
            Ok(s) => spec_get_utf8(header_entries(*m), f) == Ok::<Seq<char>, Error>(s@),
            Err(e) => spec_get_utf8(header_entries(*m), f) == Err::<Seq<char>, Error>(e),
        },
{
    match get_raw(m, f) {
        None => Err(Error::missing(f)),
        Some(v) => match decode_utf8_text(v.as_slice()) {
            Ok(s) => Ok(s),
            Err(e) => Err(Error::malformed(f, e)),
        },
    }
}

/// What extracting the `user-session` stage returns: missing when absent,
/// the stage for its token, malformed for any other value.
pub open spec fn spec_get_session(m: Map<Seq<char>, Seq<u8>>) -> Result<UserSession, Error> {
    match entry_of(m, FieldName::UserSession) {
        None => Err(Error { name: FieldName::UserSession, kind: ErrorKind::Missing }),
        Some(b) => match UserSession::spec_decode(b) {
            Some(s) => Ok(s),
            None => Err(
                Error {
                    name: FieldName::UserSession,
                    kind: ErrorKind::Error(ValueError::UnknownToken),
                },
            ),
        },
    }
}

/// Extract the `user-session` stage, exactly as [`spec_get_session`] says.
pub fn get_session(m: &http::HeaderMap) -> (r: Result<UserSession, Error>)
    ensures
        match r {
            Ok(s) => spec_get_session(header_entries(*m)) == Ok::<UserSession, Error>(s),
            Err(e) => spec_get_session(header_entries(*m)) == Err::<UserSession, Error>(e),
        },
{
    match get_raw(m, FieldName::UserSession) {
        None => Err(Error::missing(FieldName::UserSession)),
        Some(v) => match UserSession::decode(v.as_slice()) {
            Ok(s) => Ok(s),
            Err(e) => Err(Error::malformed(FieldName::UserSession, e)),
        },
    }
}

/// What extracting the `request-scope` boundary returns: missing when
/// absent, the boundary for its token, malformed for any other value.
pub open spec fn spec_get_request_scope(m: Map<Seq<char>, Seq<u8>>) -> Result<
    RequestScope,
    Error,
> {
    match entry_of(m, FieldName::RequestScope) {
        None => Err(Error { name: FieldName::RequestScope, kind: ErrorKind::Missing }),
        Some(b) => match RequestScope::spec_decode(b) {
            Some(s) => Ok(s),
            None => Err(
                Error {
                    name: FieldName::RequestScope,
                    kind: ErrorKind::Error(ValueError::UnknownToken),
                },
            ),
        },
    }
}

/// Extract the `request-scope` boundary, exactly as
/// [`spec_get_request_scope`] says.
pub fn get_request_scope(m: &http::HeaderMap) -> (r: Result<RequestScope, Error>)
    ensures
        match r {
            Ok(s) => spec_get_request_scope(header_entries(*m)) == Ok::<RequestScope, Error>(s),
            Err(e) => spec_get_request_scope(header_entries(*m)) == Err::<RequestScope, Error>(e),
        },
{
    match get_raw(m, FieldName::RequestScope) {
        None => Err(Error::missing(FieldName::RequestScope)),
        Some(v) => match RequestScope::decode(v.as_slice()) {
            Ok(s) => Ok(s),
            Err(e) => Err(Error::malformed(FieldName::RequestScope, e)),
        },
    }
}

/// What extracting the `user-is-admin` flag returns: missing when absent,
/// the flag for `true` or `false`, malformed for any other value.
pub open spec fn spec_get_is_admin(m: Map<Seq<char>, Seq<u8>>) -> Result<UserIsAdmin, Error> {
    match entry_of(m, FieldName::UserIsAdmin) {
        None => Err(Error { name: FieldName::UserIsAdmin, kind: ErrorKind::Missing }),
        Some(b) => match UserIsAdmin::spec_decode(b) {
            Some(s) => Ok(s),
            None => Err(
                Error {
                    name: FieldName::UserIsAdmin,
                    kind: ErrorKind::Error(ValueError::UnknownToken),
                },
            ),
        },
    }
}

/// Extract the `user-is-admin` flag, exactly as [`spec_get_is_admin`]
/// says.
pub fn get_is_admin(m: &http::HeaderMap) -> (r: Result<UserIsAdmin, Error>)
    ensures
        match r {
            Ok(s) => spec_get_is_admin(header_entries(*m)) == Ok::<UserIsAdmin, Error>(s),
            Err(e) => spec_get_is_admin(header_entries(*m)) == Err::<UserIsAdmin, Error>(e),
        },
{
    match get_raw(m, FieldName::UserIsAdmin) {
        None => Err(Error::missing(FieldName::UserIsAdmin)),
        Some(v) => match UserIsAdmin::decode(v.as_slice()) {
            Ok(s) => Ok(s),
            Err(e) => Err(Error::malformed(FieldName::UserIsAdmin, e)),
        },
    }
}

/// Printable-ASCII character sequences are ASCII, and their UTF-8 bytes
/// are accepted on the wire.
pub proof fn lemma_printable_ascii_wire(s: Seq<char>)
    requires
        forall|i: int| 0 <= i < s.len() ==> (' ' <= #[trigger] s[i] && s[i] <= '~'),
    ensures
        vstd::utf8::is_ascii_chars(s),
        wire_value(encode_utf8(s)),
{
    broadcast use vstd::utf8::is_ascii_chars_encode_utf8, vstd::utf8::is_ascii_chars_nat_bound;

    assert(vstd::utf8::is_ascii_chars(s));
    assert forall|i: int| 0 <= i < encode_utf8(s).len() implies wire_value_byte(
        #[trigger] encode_utf8(s)[i],
    ) by {
        assert(encode_utf8(s)[i] == s[i] as u8);
        assert(' ' <= s[i] && s[i] <= '~');
    }
}

/// The decimal rendering of a 32-bit integer is accepted on the wire.
pub proof fn lemma_format_i32_wire(n: int)
    ensures
        wire_value(crate::codec::spec_format_i32(n)),
{
    let s = crate::codec::spec_format_i32(n);
    if n == 0 {
        assert(wire_value_byte(s[0]));
    } else if n < 0 {
        crate::codec::lemma_spec_digits_val((-n) as nat);
        assert forall|i: int| 0 <= i < s.len() implies wire_value_byte(#[trigger] s[i]) by {
            if i > 0 {
                assert(crate::codec::is_digit(crate::codec::spec_digits((-n) as nat)[i - 1]));
            }
        }
    } else {
        crate::codec::lemma_spec_digits_val(n as nat);
        assert forall|i: int| 0 <= i < s.len() implies wire_value_byte(#[trigger] s[i]) by {
            assert(crate::codec::is_digit(crate::codec::spec_digits(n as nat)[i]));
        }
    }
}

/// Extract a decimal 32-bit integer field, exactly as [`spec_get_i32`]
/// says.
pub fn get_i32(m: &http::HeaderMap, f: FieldName) -> (r: Result<i32, Error>)
    ensures
        match r {
            Ok(n) => spec_get_i32(header_entries(*m), f) == Ok::<i32, Error>(n),
            Err(e) => spec_get_i32(header_entries(*m), f) == Err::<i32, Error>(e),
        },
{
    match get_raw(m, f) {
        None => Err(Error::missing(f)),
        Some(v) => match parse_i32(v.as_slice()) {
            Some(n) => Ok(n),
            None => Err(Error::malformed(f, ValueError::NotAnInteger)),
        },
    }
}

} // verus!
