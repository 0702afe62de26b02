//! The caller's identity: authentication stage, profile, and role.

use vstd::prelude::*;
use vstd::string::StrSliceExecFns;
use vstd::utf8::encode_utf8;
use vstd::utf8::is_ascii_chars;

verus! {

use crate::codec::{
    format_i32, lemma_ascii_chars_bytes, lemma_encode_utf8_injective, lemma_format_parse_i32,
    spec_format_i32,
};
use crate::headers::{
    empty_entries, entry_of, get_i32, get_is_admin, get_raw, get_session, get_utf8, get_ascii,
    header_count, header_entries, lemma_format_i32_wire, lemma_printable_ascii_wire,
    new_header_map, set_raw, spec_get_ascii, spec_get_i32, spec_get_is_admin, spec_get_session,
    spec_get_utf8, wire_value, Error, ErrorKind, FieldName, UserIsAdmin, UserSession, ValueError,
};

/// The role applied to the current user, scoped to a single event.
///
/// Carried in the `user-role` field. Ordered ascending:
/// `Participant < Organizer < Manager < Director`.
#[derive(Clone, Copy, Debug, PartialEq, Eq, Structural)]
pub enum UserRole {
    /// A participant of an event: no organization-level permissions.
    Participant,
    /// A normal user within the organization.
    Organizer,
    /// An elevated user within the organization: more permissions than an
    /// organizer, fewer than a director.
    Manager,
    /// The highest permissions in an organization.
    Director,
}

impl UserRole {
    /// The role's position in the ascending order.
    pub open spec fn rank(self) -> int {
        match self {
            UserRole::Participant => 0,
            UserRole::Organizer => 1,
            UserRole::Manager => 2,
            UserRole::Director => 3,
        }
    }

    /// The role's position in the ascending order.
    pub fn rank_val(self) -> (r: u8)
        ensures
            r as int == self.rank(),
    {
        match self {
            UserRole::Participant => 0,
            UserRole::Organizer => 1,
            UserRole::Manager => 2,
            UserRole::Director => 3,
        }
    }

    /// The role's canonical token on the wire.
    pub open spec fn token(self) -> Seq<char> {
        match self {
            UserRole::Participant => "participant"@,
            UserRole::Organizer => "organizer"@,
            UserRole::Manager => "manager"@,
            UserRole::Director => "director"@,
        }
    }

    /// Which role a raw value decodes to, if any.
    pub open spec fn spec_decode(b: Seq<u8>) -> Option<UserRole> {
        if b == encode_utf8("director"@) {
            Some(UserRole::Director)
        } else if b == encode_utf8("manager"@) {
            Some(UserRole::Manager)
        } else if b == encode_utf8("organizer"@) {
            Some(UserRole::Organizer)
        } else if b == encode_utf8("participant"@) {
            Some(UserRole::Participant)
        } else {
            None
        }
    }

    /// Decode a raw value, case-sensitively, against the four role tokens.
    pub fn decode(b: &[u8]) -> (r: Result<UserRole, ValueError>)
        ensures
            r == (match UserRole::spec_decode(b@) {
                Some(s) => Ok::<UserRole, ValueError>(s),
                None => Err::<UserRole, ValueError>(ValueError::UnknownToken),
            }),
    {
        if crate::headers::token_matches(b, "director") {
            Ok(UserRole::Director)
        } else if crate::headers::token_matches(b, "manager") {
            Ok(UserRole::Manager)
        } else if crate::headers::token_matches(b, "organizer") {
            Ok(UserRole::Organizer)
        } else if crate::headers::token_matches(b, "participant") {
            Ok(UserRole::Participant)
        } else {
            Err(ValueError::UnknownToken)
        }
    }

    /// Encode the role as its canonical token.
    pub fn encode(self) -> (r: Vec<u8>)
        ensures
            r@ == encode_utf8(self.token()),
    {
        match self {
            UserRole::Participant => "participant".as_bytes_vec(),
            UserRole::Organizer => "organizer".as_bytes_vec(),
            UserRole::Manager => "manager".as_bytes_vec(),
            UserRole::Director => "director".as_bytes_vec(),
        }
    }

    /// Decoding an encoded role token gives the role back.
    pub proof fn lemma_round_trip(self)
        ensures
            UserRole::spec_decode(encode_utf8(self.token())) == Some(self),
    {
        reveal_strlit("participant");
        reveal_strlit("organizer");
        reveal_strlit("manager");
        reveal_strlit("director");
        lemma_encode_utf8_injective(self.token(), "participant"@);
        lemma_encode_utf8_injective(self.token(), "organizer"@);
        lemma_encode_utf8_injective(self.token(), "manager"@);
        lemma_encode_utf8_injective(self.token(), "director"@);
    }
}

impl PartialOrd for UserRole {
    fn partial_cmp(&self, other: &UserRole) -> (r: Option<core::cmp::Ordering>) {
        let a = self.rank_val();
        let b = other.rank_val();
        if a < b {
            Some(core::cmp::Ordering::Less)
        } else if a == b {
            Some(core::cmp::Ordering::Equal)
        } else {
            Some(core::cmp::Ordering::Greater)
        }
    }
}

impl vstd::std_specs::cmp::PartialOrdSpecImpl for UserRole {
    open spec fn obeys_partial_cmp_spec() -> bool {
        true
    }

    open spec fn partial_cmp_spec(&self, other: &UserRole) -> Option<core::cmp::Ordering> {
        if self.rank() < other.rank() {
            Some(core::cmp::Ordering::Less)
        } else if self.rank() == other.rank() {
            Some(core::cmp::Ordering::Equal)
        } else {
            Some(core::cmp::Ordering::Greater)
        }
    }
}

/// The roles form a total order under their rank, ascending
/// `Participant < Organizer < Manager < Director`, and comparison agrees
/// with equality.
pub proof fn lemma_role_total_order(a: UserRole, b: UserRole, c: UserRole)
    ensures
        a.rank() <= a.rank(),
        a.rank() <= b.rank() && b.rank() <= a.rank() ==> a == b,
        a.rank() <= b.rank() && b.rank() <= c.rank() ==> a.rank() <= c.rank(),
        a.rank() <= b.rank() || b.rank() <= a.rank(),
        (a == b) == (a.rank() == b.rank()),
        UserRole::Participant.rank() < UserRole::Organizer.rank()
            < UserRole::Manager.rank() < UserRole::Director.rank(),
{
}

/// Details about a user that needs to complete their registration.
#[derive(Clone, Debug)]
pub struct UserRegistrationNeeded {
    /// The slug of the provider the user authenticated with.
    pub provider: String,
    /// The user's ID according to the provider.
    pub id: String,
    /// The user's primary email from the provider.
    pub email: String,
}

/// The mathematical value of a [`UserRegistrationNeeded`].
pub ghost struct UserRegistrationNeededV {
    /// The provider slug's characters.
    pub provider: Seq<char>,
    /// The provider-side ID's characters.
    pub id: Seq<char>,
    /// The email's characters.
    pub email: Seq<char>,
}

impl View for UserRegistrationNeeded {
    type V = UserRegistrationNeededV;

    open spec fn view(&self) -> UserRegistrationNeededV {
        UserRegistrationNeededV { provider: self.provider@, id: self.id@, email: self.email@ }
    }
}

impl UserRegistrationNeededV {
    /// The decode invariant: provider and ID are ASCII fields.
    pub open spec fn wf(self) -> bool {
        is_ascii_chars(self.provider) && is_ascii_chars(self.id)
    }
}

impl PartialEq for UserRegistrationNeeded {
    fn eq(&self, other: &UserRegistrationNeeded) -> (r: bool) {
        self.provider == other.provider && self.id == other.id && self.email == other.email
    }
}

impl vstd::std_specs::cmp::PartialEqSpecImpl for UserRegistrationNeeded {
    open spec fn obeys_eq_spec() -> bool {
        true
    }

    open spec fn eq_spec(&self, other: &UserRegistrationNeeded) -> bool {
        self@ == other@
    }
}

/// Details about an authenticated user.
#[derive(Clone, Debug)]
pub struct AuthenticatedUser {
    /// The user's ID.
    pub id: i32,
    /// The user's given/first name.
    pub given_name: String,
    /// The user's family/last name.
    pub family_name: String,
    /// The user's primary email.
    pub email: String,
    /// The user's role for the scope; absent when none was supplied.
    pub role: Option<UserRole>,
    /// Whether the user is an admin.
    pub is_admin: bool,
}

/// The mathematical value of an [`AuthenticatedUser`].
pub ghost struct AuthenticatedUserV {
    /// The user's ID.
    pub id: i32,
    /// The given name's characters.
    pub given_name: Seq<char>,
    /// The family name's characters.
    pub family_name: Seq<char>,
    /// The email's characters.
    pub email: Seq<char>,
    /// The role, if one was supplied.
    pub role: Option<UserRole>,
    /// Whether the user is an admin.
    pub is_admin: bool,
}

impl View for AuthenticatedUser {
    type V = AuthenticatedUserV;

    open spec fn view(&self) -> AuthenticatedUserV {
        AuthenticatedUserV {
            id: self.id,
            given_name: self.given_name@,
            family_name: self.family_name@,
            email: self.email@,
            role: self.role,
            is_admin: self.is_admin,
        }
    }
}

impl AuthenticatedUserV {
    /// The decode invariant; all text payloads of this variant are UTF-8
    /// fields, so nothing is constrained.
    pub open spec fn wf(self) -> bool {
        true
    }
}

impl PartialEq for AuthenticatedUser {
    fn eq(&self, other: &AuthenticatedUser) -> (r: bool) {
        let role_eq = match (self.role, other.role) {
            (Option::None, Option::None) => true,
            (Option::Some(a), Option::Some(b)) => a == b,
            _ => false,
        };
        self.id == other.id && role_eq && self.is_admin == other.is_admin && self.given_name
            == other.given_name && self.family_name == other.family_name && self.email
            == other.email
    }
}

impl vstd::std_specs::cmp::PartialEqSpecImpl for AuthenticatedUser {
    open spec fn obeys_eq_spec() -> bool {
        true
    }

    open spec fn eq_spec(&self, other: &AuthenticatedUser) -> bool {
        self@ == other@
    }
}

/// Information about the requesting user.
#[derive(Clone, Debug)]
pub enum User {
    /// The user is unauthenticated.
    Unauthenticated,
    /// The user is in the middle of logging in via OAuth.
    OAuth,
    /// The user needs to complete their registration.
    RegistrationNeeded(UserRegistrationNeeded),
    /// The user is fully authenticated.
    Authenticated(AuthenticatedUser),
}

/// The mathematical value of a [`User`].
pub ghost enum UserV {
    /// The user is unauthenticated.
    Unauthenticated,
    /// The user is in the middle of logging in via OAuth.
    OAuth,
    /// The user needs to complete their registration.
    RegistrationNeeded(UserRegistrationNeededV),
    /// The user is fully authenticated.
    Authenticated(AuthenticatedUserV),
}

impl View for User {
    type V = UserV;

    open spec fn view(&self) -> UserV {
        match self {
            User::Unauthenticated => UserV::Unauthenticated,
            User::OAuth => UserV::OAuth,
            User::RegistrationNeeded(c) => UserV::RegistrationNeeded(c@),
            User::Authenticated(c) => UserV::Authenticated(c@),
        }
    }
}

impl UserV {
    /// The decode invariant of each variant's payload.
    pub open spec fn wf(self) -> bool {
        match self {
            UserV::Unauthenticated => true,
            UserV::OAuth => true,
            UserV::RegistrationNeeded(c) => c.wf(),
            UserV::Authenticated(c) => c.wf(),
        }
    }
}

impl PartialEq for User {
    fn eq(&self, other: &User) -> (r: bool) {
        match (self, other) {
            (User::Unauthenticated, User::Unauthenticated) => true,
            (User::OAuth, User::OAuth) => true,
            (User::RegistrationNeeded(a), User::RegistrationNeeded(b)) => a == b,
            (User::Authenticated(a), User::Authenticated(b)) => a == b,
            _ => false,
        }
    }
}

impl vstd::std_specs::cmp::PartialEqSpecImpl for User {
    open spec fn obeys_eq_spec() -> bool {
        true
    }

    open spec fn eq_spec(&self, other: &User) -> bool {
        self@ == other@
    }
}

/// Query parameters for fetching the user context.
#[derive(Clone, Debug)]
pub struct UserParams {
    /// The session token; empty when none was supplied.
    pub token: String,
}

impl PartialEq for UserParams {
    fn eq(&self, other: &UserParams) -> (r: bool) {
        self.token == other.token
    }
}

impl vstd::std_specs::cmp::PartialEqSpecImpl for UserParams {
    open spec fn obeys_eq_spec() -> bool {
        true
    }

    open spec fn eq_spec(&self, other: &UserParams) -> bool {
        self.token@ == other.token@
    }
}

/// What extracting the optional `user-role` field returns: no role when
/// absent, the role for its token, malformed for any other value.
pub open spec fn spec_get_role(m: Map<Seq<char>, Seq<u8>>) -> Result<Option<UserRole>, Error> {
    match entry_of(m, FieldName::UserRole) {
        None => Ok(None),
        Some(b) => match UserRole::spec_decode(b) {
            Some(ro) => Ok(Some(ro)),
            None => Err(
                Error { name: FieldName::UserRole, kind: ErrorKind::Error(ValueError::UnknownToken) },
            ),
        },
    }
}

/// Extract the optional `user-role` field, exactly as [`spec_get_role`]
/// says: its absence is not an error.
pub fn get_role(m: &http::HeaderMap) -> (r: Result<Option<UserRole>, Error>)
    ensures
        match r {
            Ok(ro) => spec_get_role(header_entries(*m)) == Ok::<Option<UserRole>, Error>(ro),
            Err(e) => spec_get_role(header_entries(*m)) == Err::<Option<UserRole>, Error>(e),
        },
{
    match get_raw(m, FieldName::UserRole) {
        None => Ok(None),
        Some(v) => match UserRole::decode(v.as_slice()) {
            Ok(ro) => Ok(Some(ro)),
            Err(e) => Err(Error::malformed(FieldName::UserRole, e)),
        },
    }
}

/// What assembling a registration-needed payload returns: provider, then
/// provider-side ID, then email, stopping at the first failure.
pub open spec fn spec_decode_registration(m: Map<Seq<char>, Seq<u8>>) -> Result<
    UserRegistrationNeededV,
    Error,
> {
    match spec_get_ascii(m, FieldName::OAuthProviderSlug) {
        Err(e) => Err(e),
        Ok(provider) => match spec_get_ascii(m, FieldName::OAuthUserId) {
            Err(e) => Err(e),
            Ok(id) => match spec_get_utf8(m, FieldName::OAuthUserEmail) {
                Err(e) => Err(e),
                Ok(email) => Ok(UserRegistrationNeededV { provider, id, email }),
            },
        },
    }
}

/// What assembling an authenticated payload returns: ID, given name,
/// family name, email, optional role, admin flag, stopping at the first
/// failure.
pub open spec fn spec_decode_authenticated(m: Map<Seq<char>, Seq<u8>>) -> Result<
    AuthenticatedUserV,
    Error,
> {
    match spec_get_i32(m, FieldName::UserId) {
        Err(e) => Err(e),
        Ok(id) => match spec_get_utf8(m, FieldName::UserGivenName) {
            Err(e) => Err(e),
            Ok(given_name) => match spec_get_utf8(m, FieldName::UserFamilyName) {
                Err(e) => Err(e),
                Ok(family_name) => match spec_get_utf8(m, FieldName::UserEmail) {
                    Err(e) => Err(e),
                    Ok(email) => match spec_get_role(m) {
                        Err(e) => Err(e),
                        Ok(role) => match spec_get_is_admin(m) {
                            Err(e) => Err(e),
                            Ok(flag) => Ok(
                                AuthenticatedUserV {
                                    id,
                                    given_name,
                                    family_name,
                                    email,
                                    role,
                                    is_admin: flag.0,
                                },
                            ),
                        },
                    },
                },
            },
        },
    }
}

/// What assembling the caller's identity returns: the `user-session`
/// discriminator selects the variant and which further fields are
/// mandatory.
pub open spec fn spec_decode_user(m: Map<Seq<char>, Seq<u8>>) -> Result<UserV, Error> {
    match spec_get_session(m) {
        Err(e) => Err(e),
        Ok(UserSession::Unauthenticated) => Ok(UserV::Unauthenticated),
        Ok(UserSession::OAuth) => Ok(UserV::OAuth),
        Ok(UserSession::RegistrationNeeded) => match spec_decode_registration(m) {
            Ok(c) => Ok(UserV::RegistrationNeeded(c)),
            Err(e) => Err(e),
        },
        Ok(UserSession::Authenticated) => match spec_decode_authenticated(m) {
            Ok(c) => Ok(UserV::Authenticated(c)),
            Err(e) => Err(e),
        },
    }
}

impl UserRegistrationNeeded {
    /// Assemble the payload from a header map, exactly as
    /// [`spec_decode_registration`] says.
    pub fn try_from(headers: &http::HeaderMap) -> (r: Result<UserRegistrationNeeded, Error>)
        ensures
            match r {
                Ok(c) => spec_decode_registration(header_entries(*headers)) == Ok::<
                    UserRegistrationNeededV,
                    Error,
                >(c@) && c@.wf(),
                Err(e) => spec_decode_registration(header_entries(*headers)) == Err::<
                    UserRegistrationNeededV,
                    Error,
                >(e),
            },
    {
        let provider = match get_ascii(headers, FieldName::OAuthProviderSlug) {
            Ok(v) => v,
            Err(e) => return Err(e),
        };
        let id = match get_ascii(headers, FieldName::OAuthUserId) {
            Ok(v) => v,
            Err(e) => return Err(e),
        };
        let email = match get_utf8(headers, FieldName::OAuthUserEmail) {
            Ok(v) => v,
            Err(e) => return Err(e),
        };
        proof {
            crate::codec::lemma_ascii_bytes_utf8(
                entry_of(header_entries(*headers), FieldName::OAuthProviderSlug).unwrap(),
            );
            crate::codec::lemma_ascii_bytes_utf8(
                entry_of(header_entries(*headers), FieldName::OAuthUserId).unwrap(),
            );
        }
        Ok(UserRegistrationNeeded { provider, id, email })
    }
}

impl AuthenticatedUser {
    /// Assemble the payload from a header map, exactly as
    /// [`spec_decode_authenticated`] says.
    pub fn try_from(headers: &http::HeaderMap) -> (r: Result<AuthenticatedUser, Error>)
        ensures
            match r {
                Ok(c) => spec_decode_authenticated(header_entries(*headers)) == Ok::<
                    AuthenticatedUserV,
                    Error,
                >(c@),
                Err(e) => spec_decode_authenticated(header_entries(*headers)) == Err::<
                    AuthenticatedUserV,
                    Error,
                >(e),
            },
    {
        let id = match get_i32(headers, FieldName::UserId) {
            Ok(v) => v,
            Err(e) => return Err(e),
        };
        let given_name = match get_utf8(headers, FieldName::UserGivenName) {
            Ok(v) => v,
            Err(e) => return Err(e),
        };
        let family_name = match get_utf8(headers, FieldName::UserFamilyName) {
            Ok(v) => v,
            Err(e) => return Err(e),
        };
        let email = match get_utf8(headers, FieldName::UserEmail) {
            Ok(v) => v,
            Err(e) => return Err(e),
        };
        let role = match get_role(headers) {
            Ok(v) => v,
            Err(e) => return Err(e),
        };
        let is_admin = match get_is_admin(headers) {
            Ok(v) => v.into_inner(),
            Err(e) => return Err(e),
        };
        Ok(AuthenticatedUser { id, given_name, family_name, email, role, is_admin })
    }
}

impl User {
    /// Assemble the caller's identity from a header map, exactly as
    /// [`spec_decode_user`] says: the discriminator field selects the
    /// variant, and decoding stops at the first failing field.
    pub fn try_from(headers: &http::HeaderMap) -> (r: Result<User, Error>)
        ensures
            match r {
                Ok(u) => spec_decode_user(header_entries(*headers)) == Ok::<UserV, Error>(u@)
                    && u@.wf(),
                Err(e) => spec_decode_user(header_entries(*headers)) == Err::<UserV, Error>(e),
            },
    {
        let session = match get_session(headers) {
            Ok(s) => s,
            Err(e) => return Err(e),
        };
        match session {
            UserSession::Unauthenticated => Ok(User::Unauthenticated),
            UserSession::OAuth => Ok(User::OAuth),
            UserSession::RegistrationNeeded => match UserRegistrationNeeded::try_from(headers) {
                Ok(c) => Ok(User::RegistrationNeeded(c)),
                Err(e) => Err(e),
            },
            UserSession::Authenticated => match AuthenticatedUser::try_from(headers) {
                Ok(c) => Ok(User::Authenticated(c)),
                Err(e) => Err(e),
            },
        }
    }
}

/// The fields a registration-needed payload adds to a header map.
pub open spec fn spec_registration_fields(
    c: UserRegistrationNeededV,
    m0: Map<Seq<char>, Seq<u8>>,
) -> Map<Seq<char>, Seq<u8>> {
    m0.insert(FieldName::OAuthProviderSlug.chars(), encode_utf8(c.provider)).insert(
        FieldName::OAuthUserId.chars(),
        encode_utf8(c.id),
    ).insert(FieldName::OAuthUserEmail.chars(), encode_utf8(c.email))
}

/// The fields an authenticated payload adds to a header map; the role
/// field is written only when a role is present.
pub open spec fn spec_authenticated_fields(
    c: AuthenticatedUserV,
    m0: Map<Seq<char>, Seq<u8>>,
) -> Map<Seq<char>, Seq<u8>> {
    let m1 = m0.insert(FieldName::UserId.chars(), spec_format_i32(c.id as int)).insert(
        FieldName::UserGivenName.chars(),
        encode_utf8(c.given_name),
    ).insert(FieldName::UserFamilyName.chars(), encode_utf8(c.family_name)).insert(
        FieldName::UserEmail.chars(),
        encode_utf8(c.email),
    );
    let m2 = match c.role {
        Some(ro) => m1.insert(FieldName::UserRole.chars(), encode_utf8(ro.token())),
        None => m1,
    };
    m2.insert(FieldName::UserIsAdmin.chars(), encode_utf8(UserIsAdmin(c.is_admin).token()))
}

/// The fields the caller's identity writes to a header map: the
/// discriminator first, then the variant's payload fields in order.
pub open spec fn spec_user_fields(u: UserV, m0: Map<Seq<char>, Seq<u8>>) -> Map<
    Seq<char>,
    Seq<u8>,
> {
    match u {
        UserV::Unauthenticated => m0.insert(
            FieldName::UserSession.chars(),
            encode_utf8(UserSession::Unauthenticated.token()),
        ),
        UserV::OAuth => m0.insert(
            FieldName::UserSession.chars(),
            encode_utf8(UserSession::OAuth.token()),
        ),
        UserV::RegistrationNeeded(c) => spec_registration_fields(
            c,
            m0.insert(
                FieldName::UserSession.chars(),
                encode_utf8(UserSession::RegistrationNeeded.token()),
            ),
        ),
        UserV::Authenticated(c) => spec_authenticated_fields(
            c,
            m0.insert(
                FieldName::UserSession.chars(),
                encode_utf8(UserSession::Authenticated.token()),
            ),
        ),
    }
}

impl UserRegistrationNeededV {
    /// True when every field's bytes are accepted on the wire.
    pub open spec fn transportable(self) -> bool {
        wire_value(encode_utf8(self.provider)) && wire_value(encode_utf8(self.id)) && wire_value(
            encode_utf8(self.email),
        )
    }
}

impl AuthenticatedUserV {
    /// True when every field's bytes are accepted on the wire.
    pub open spec fn transportable(self) -> bool {
        wire_value(encode_utf8(self.given_name)) && wire_value(encode_utf8(self.family_name))
            && wire_value(encode_utf8(self.email))
    }
}

impl UserV {
    /// True when every payload field's bytes are accepted on the wire.
    pub open spec fn transportable(self) -> bool {
        match self {
            UserV::Unauthenticated => true,
            UserV::OAuth => true,
            UserV::RegistrationNeeded(c) => c.transportable(),
            UserV::Authenticated(c) => c.transportable(),
        }
    }
}

impl UserRegistrationNeeded {
    /// Write the payload fields to request headers.
    fn write_headers(self, headers: &mut http::HeaderMap)
        requires
            self@.transportable(),
            header_count(*old(headers)) + 3 <= 6554,
        ensures
            header_entries(*final(headers)) == spec_registration_fields(
                self@,
                header_entries(*old(headers)),
            ),
            header_count(*final(headers)) <= header_count(*old(headers)) + 3,
    {
        let provider = self.provider.as_str().as_bytes_vec();
        set_raw(headers, FieldName::OAuthProviderSlug, provider.as_slice());
        let id = self.id.as_str().as_bytes_vec();
        set_raw(headers, FieldName::OAuthUserId, id.as_slice());
        let email = self.email.as_str().as_bytes_vec();
        set_raw(headers, FieldName::OAuthUserEmail, email.as_slice());
    }
}

impl AuthenticatedUser {
    /// Write the payload fields to request headers; the role field is
    /// written only when a role is present.
    fn write_headers(self, headers: &mut http::HeaderMap)
        requires
            self@.transportable(),
            header_count(*old(headers)) + 6 <= 6554,
        ensures
            header_entries(*final(headers)) == spec_authenticated_fields(
                self@,
                header_entries(*old(headers)),
            ),
            header_count(*final(headers)) <= header_count(*old(headers)) + 6,
    {
        proof {
            lemma_format_i32_wire(self.id as int);
        }
        let id = format_i32(self.id);
        set_raw(headers, FieldName::UserId, id.as_slice());
        let given_name = self.given_name.as_str().as_bytes_vec();
        set_raw(headers, FieldName::UserGivenName, given_name.as_slice());
        let family_name = self.family_name.as_str().as_bytes_vec();
        set_raw(headers, FieldName::UserFamilyName, family_name.as_slice());
        let email = self.email.as_str().as_bytes_vec();
        set_raw(headers, FieldName::UserEmail, email.as_slice());
        if let Some(role) = self.role {
            proof {
                reveal_strlit("participant");
                reveal_strlit("organizer");
                reveal_strlit("manager");
                reveal_strlit("director");
                lemma_printable_ascii_wire(role.token());
            }
            let tok = role.encode();
            set_raw(headers, FieldName::UserRole, tok.as_slice());
        }
        proof {
            reveal_strlit("true");
            reveal_strlit("false");
            lemma_printable_ascii_wire(UserIsAdmin(self.is_admin).token());
        }
        let flag = UserIsAdmin(self.is_admin).encode();
        set_raw(headers, FieldName::UserIsAdmin, flag.as_slice());
    }
}

impl User {
    /// Write the identity to request headers: the discriminator field
    /// first, then the selected variant's payload fields in order.
    pub fn write_headers(self, headers: &mut http::HeaderMap)
        requires
            self@.transportable(),
            header_count(*old(headers)) + 7 <= 6554,
        ensures
            header_entries(*final(headers)) == spec_user_fields(
                self@,
                header_entries(*old(headers)),
            ),
            header_count(*final(headers)) <= header_count(*old(headers)) + 7,
    {
        proof {
            reveal_strlit("unauthenticated");
            reveal_strlit("oauth");
            reveal_strlit("registration-needed");
            reveal_strlit("authenticated");
            lemma_printable_ascii_wire(UserSession::Unauthenticated.token());
            lemma_printable_ascii_wire(UserSession::OAuth.token());
            lemma_printable_ascii_wire(UserSession::RegistrationNeeded.token());
            lemma_printable_ascii_wire(UserSession::Authenticated.token());
        }
        match self {
            User::Unauthenticated => {
                let tok = UserSession::Unauthenticated.encode();
                set_raw(headers, FieldName::UserSession, tok.as_slice());
            },
            User::OAuth => {
                let tok = UserSession::OAuth.encode();
                set_raw(headers, FieldName::UserSession, tok.as_slice());
            },
            User::RegistrationNeeded(context) => {
                let tok = UserSession::RegistrationNeeded.encode();
                set_raw(headers, FieldName::UserSession, tok.as_slice());
                context.write_headers(headers);
            },
            User::Authenticated(context) => {
                let tok = UserSession::Authenticated.encode();
                set_raw(headers, FieldName::UserSession, tok.as_slice());
                context.write_headers(headers);
            },
        }
    }

    /// Check whether the identity can be written to request headers: its
    /// ASCII fields hold only ASCII, and every field's bytes are accepted
    /// on the wire.
    pub fn transport_ok(&self) -> (r: bool)
        ensures
            r == (self@.wf() && self@.transportable()),
    {
        match self {
            User::Unauthenticated => true,
            User::OAuth => true,
            User::RegistrationNeeded(c) => c.provider.as_str().is_ascii()
                && c.id.as_str().is_ascii() && crate::headers::text_wire_ok(c.provider.as_str())
                && crate::headers::text_wire_ok(c.id.as_str()) && crate::headers::text_wire_ok(
                c.email.as_str(),
            ),
            User::Authenticated(c) => crate::headers::text_wire_ok(c.given_name.as_str())
                && crate::headers::text_wire_ok(c.family_name.as_str())
                && crate::headers::text_wire_ok(c.email.as_str()),
        }
    }

    /// Serialize the identity into fresh request headers; decoding them
    /// gives the identity back.
    pub fn into_headers(self) -> (r: http::HeaderMap)
        requires
            self@.wf(),
            self@.transportable(),
        ensures
            header_entries(r) == spec_user_fields(self@, empty_entries()),
            spec_decode_user(header_entries(r)) == Ok::<UserV, Error>(self@),
    {
        let ghost u = self@;
        let mut map = new_header_map();
        self.write_headers(&mut map);
        proof {
            lemma_user_round_trip(u);
        }
        map
    }
}

/// Round trip: for every well-formed identity, decoding the fields it
/// writes to an empty map yields exactly that identity.
#[verifier::rlimit(60)]
pub proof fn lemma_user_round_trip(u: UserV)
    requires
        u.wf(),
    ensures
        spec_decode_user(spec_user_fields(u, empty_entries())) == Ok::<UserV, Error>(u),
{
    broadcast use vstd::utf8::encode_utf8_valid_utf8, vstd::utf8::encode_utf8_decode_utf8;

    reveal_strlit("unauthenticated");
    reveal_strlit("oauth");
    reveal_strlit("registration-needed");
    reveal_strlit("authenticated");
    reveal_strlit("user-session");
    reveal_strlit("oauth-provider-slug");
    reveal_strlit("oauth-user-id");
    reveal_strlit("oauth-user-email");
    reveal_strlit("user-id");
    reveal_strlit("user-given-name");
    reveal_strlit("user-family-name");
    reveal_strlit("user-email");
    reveal_strlit("user-role");
    reveal_strlit("user-is-admin");
    let m = spec_user_fields(u, empty_entries());
    match u {
        UserV::Unauthenticated => {
            UserSession::Unauthenticated.lemma_round_trip();
        },
        UserV::OAuth => {
            UserSession::OAuth.lemma_round_trip();
        },
        UserV::RegistrationNeeded(c) => {
            UserSession::RegistrationNeeded.lemma_round_trip();
            lemma_ascii_chars_bytes(c.provider);
            lemma_ascii_chars_bytes(c.id);
            assert("user-session"@.len() == 12);
            assert("oauth-provider-slug"@.len() == 19);
            assert("oauth-user-id"@.len() == 13);
            assert("oauth-user-email"@.len() == 16);
            assert(entry_of(m, FieldName::UserSession) == Some(
                encode_utf8(UserSession::RegistrationNeeded.token()),
            ));
            assert(entry_of(m, FieldName::OAuthProviderSlug) == Some(encode_utf8(c.provider)));
            assert(entry_of(m, FieldName::OAuthUserId) == Some(encode_utf8(c.id)));
            assert(entry_of(m, FieldName::OAuthUserEmail) == Some(encode_utf8(c.email)));
            assert(spec_decode_registration(m) == Ok::<UserRegistrationNeededV, Error>(c));
        },
        UserV::Authenticated(c) => {
            UserSession::Authenticated.lemma_round_trip();
            lemma_format_parse_i32(c.id as int);
            let base = empty_entries().insert(
                FieldName::UserSession.chars(),
                encode_utf8(UserSession::Authenticated.token()),
            );
            let m1 = base.insert(FieldName::UserId.chars(), spec_format_i32(c.id as int)).insert(
                FieldName::UserGivenName.chars(),
                encode_utf8(c.given_name),
            ).insert(FieldName::UserFamilyName.chars(), encode_utf8(c.family_name)).insert(
                FieldName::UserEmail.chars(),
                encode_utf8(c.email),
            );
            UserIsAdmin(c.is_admin).lemma_round_trip();
            assert("user-session"@.len() == 12);
            assert("user-id"@.len() == 7);
            assert("user-given-name"@.len() == 15);
            assert("user-family-name"@.len() == 16);
            assert("user-email"@.len() == 10);
            assert("user-role"@.len() == 9);
            assert("user-is-admin"@.len() == 13);
            match c.role {
                Some(ro) => {
                    ro.lemma_round_trip();
                    let m2 = m1.insert(FieldName::UserRole.chars(), encode_utf8(ro.token()));
                    assert(m == m2.insert(
                        FieldName::UserIsAdmin.chars(),
                        encode_utf8(UserIsAdmin(c.is_admin).token()),
                    ));
                },
                None => {
                    assert(m == m1.insert(
                        FieldName::UserIsAdmin.chars(),
                        encode_utf8(UserIsAdmin(c.is_admin).token()),
                    ));
                    assert(entry_of(m, FieldName::UserRole) is None);
                },
            }
            assert(entry_of(m, FieldName::UserSession) == Some(
                encode_utf8(UserSession::Authenticated.token()),
            ));
            assert(entry_of(m, FieldName::UserId) == Some(spec_format_i32(c.id as int)));
            assert(entry_of(m, FieldName::UserGivenName) == Some(encode_utf8(c.given_name)));
            assert(entry_of(m, FieldName::UserFamilyName) == Some(encode_utf8(c.family_name)));
            assert(entry_of(m, FieldName::UserEmail) == Some(encode_utf8(c.email)));
            assert(entry_of(m, FieldName::UserIsAdmin) == Some(
                encode_utf8(UserIsAdmin(c.is_admin).token()),
            ));
            assert(spec_decode_authenticated(m) == Ok::<AuthenticatedUserV, Error>(c));
        },
    }
}

} // verus!
