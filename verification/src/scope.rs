//! The authorization boundary of a request.

use vstd::prelude::*;
use vstd::string::StringExecFns;
use vstd::utf8::is_ascii_chars;

verus! {

use crate::codec::{
    format_i32, lemma_ascii_chars_bytes, lemma_format_parse_i32, spec_format_i32, str_eq,
};
use crate::headers::{
    empty_entries, entry_of, get_ascii, get_i32, get_request_scope, header_count, header_entries,
    lemma_format_i32_wire, lemma_printable_ascii_wire, new_header_map, set_raw, spec_get_ascii,
    spec_get_i32, spec_get_request_scope, wire_value, Error, FieldName, RequestScope,
};
use vstd::utf8::encode_utf8;

/// Query parameters for fetching the scope: exactly one of a domain or a
/// slug lookup key.
#[derive(Clone, Debug)]
pub enum ScopeParams {
    /// Find event context for a domain.
    Domain(String),
    /// Find event context for a slug.
    Slug(String),
}

/// The mathematical value of a [`ScopeParams`].
pub ghost enum ScopeParamsV {
    /// Find event context for a domain.
    Domain(Seq<char>),
    /// Find event context for a slug.
    Slug(Seq<char>),
}

impl View for ScopeParams {
    type V = ScopeParamsV;

    open spec fn view(&self) -> ScopeParamsV {
        match self {
            ScopeParams::Domain(d) => ScopeParamsV::Domain(d@),
            ScopeParams::Slug(s) => ScopeParamsV::Slug(s@),
        }
    }
}

/// The key/value pairs of a query string, as character sequences.
pub open spec fn pairs_view(pairs: Seq<(String, String)>) -> Seq<(Seq<char>, Seq<char>)> {
    pairs.map_values(|p: (String, String)| (p.0@, p.1@))
}

/// Which lookup the ordered key/value pairs select: the first pair whose
/// key is `slug` or `domain` wins; no such pair selects nothing.
pub open spec fn spec_params_from_pairs(pairs: Seq<(Seq<char>, Seq<char>)>) -> Option<
    ScopeParamsV,
>
    decreases pairs.len(),
{
    if pairs.len() == 0 {
        None
    } else if pairs[0].0 == "slug"@ {
        Some(ScopeParamsV::Slug(pairs[0].1))
    } else if pairs[0].0 == "domain"@ {
        Some(ScopeParamsV::Domain(pairs[0].1))
    } else {
        spec_params_from_pairs(pairs.drop_first())
    }
}

impl ScopeParams {
    /// Select the lookup from ordered query pairs: the first `slug` or
    /// `domain` key wins; `None` when neither key is present.
    pub fn from_pairs(pairs: &Vec<(String, String)>) -> (r: Option<ScopeParams>)
        ensures
            match r {
                Some(p) => spec_params_from_pairs(pairs_view(pairs@)) == Some(p@),
                None => spec_params_from_pairs(pairs_view(pairs@)) is None,
            },
    {
        let ghost all = pairs_view(pairs@);
        proof {
            assert(all.skip(0) =~= all);
        }
        let mut i: usize = 0;
        while i < pairs.len()
            invariant
                0 <= i <= pairs@.len(),
                all == pairs_view(pairs@),
                all.len() == pairs@.len(),
                spec_params_from_pairs(all) == spec_params_from_pairs(all.skip(i as int)),
            decreases pairs@.len() - i,
        {
            let p = &pairs[i];
            proof {
                assert(all.skip(i as int)[0] == all[i as int]);
                assert(all[i as int] == (pairs@[i as int].0@, pairs@[i as int].1@));
            }
            if str_eq(p.0.as_str(), "slug") {
                return Some(ScopeParams::Slug(p.1.clone()));
            }
            if str_eq(p.0.as_str(), "domain") {
                return Some(ScopeParams::Domain(p.1.clone()));
            }
            proof {
                assert(all.skip(i as int).drop_first() =~= all.skip(i as int + 1));
            }
            i += 1;
        }
        proof {
            assert(all.skip(i as int).len() == 0);
        }
        None
    }

    /// The single query pair this lookup serializes to.
    pub fn to_pair(&self) -> (r: (String, String))
        ensures
            match self {
                ScopeParams::Domain(d) => r.0@ == "domain"@ && r.1@ == d@,
                ScopeParams::Slug(s) => r.0@ == "slug"@ && r.1@ == s@,
            },
    {
        match self {
            ScopeParams::Domain(d) => (String::from_str("domain"), d.clone()),
            ScopeParams::Slug(s) => (String::from_str("slug"), s.clone()),
        }
    }
}

impl PartialEq for ScopeParams {
    fn eq(&self, other: &ScopeParams) -> (r: bool) {
        match (self, other) {
            (ScopeParams::Domain(a), ScopeParams::Domain(b)) => *a == *b,
            (ScopeParams::Slug(a), ScopeParams::Slug(b)) => *a == *b,
            _ => false,
        }
    }
}

impl vstd::std_specs::cmp::PartialEqSpecImpl for ScopeParams {
    open spec fn obeys_eq_spec() -> bool {
        true
    }

    open spec fn eq_spec(&self, other: &ScopeParams) -> bool {
        self@ == other@
    }
}

/// Additional information about a request scoped to an event.
#[derive(Clone, Debug)]
pub struct EventScope {
    /// The event slug.
    pub event: String,
    /// The ID of the organization that manages the event.
    pub organization_id: i32,
}

/// The mathematical value of an [`EventScope`].
pub ghost struct EventScopeV {
    /// The event slug's characters.
    pub event: Seq<char>,
    /// The ID of the organization that manages the event.
    pub organization_id: i32,
}

impl View for EventScope {
    type V = EventScopeV;

    open spec fn view(&self) -> EventScopeV {
        EventScopeV { event: self.event@, organization_id: self.organization_id }
    }
}

impl EventScopeV {
    /// The decode invariant: the slug is an ASCII field.
    pub open spec fn wf(self) -> bool {
        is_ascii_chars(self.event)
    }
}

impl PartialEq for EventScope {
    fn eq(&self, other: &EventScope) -> (r: bool) {
        self.event == other.event && self.organization_id == other.organization_id
    }
}

impl vstd::std_specs::cmp::PartialEqSpecImpl for EventScope {
    open spec fn obeys_eq_spec() -> bool {
        true
    }

    open spec fn eq_spec(&self, other: &EventScope) -> bool {
        self@ == other@
    }
}

/// Information about the scope of the current request.
#[derive(Clone, Debug)]
pub enum Scope {
    /// A request with global scope.
    Admin,
    /// A request scoped to the current user (i.e. login, event selection).
    User,
    /// A request scoped to an event.
    Event(EventScope),
}

/// The mathematical value of a [`Scope`].
pub ghost enum ScopeV {
    /// A request with global scope.
    Admin,
    /// A request scoped to the current user.
    User,
    /// A request scoped to an event.
    Event(EventScopeV),
}

impl View for Scope {
    type V = ScopeV;

    open spec fn view(&self) -> ScopeV {
        match self {
            Scope::Admin => ScopeV::Admin,
            Scope::User => ScopeV::User,
            Scope::Event(c) => ScopeV::Event(c@),
        }
    }
}

impl ScopeV {
    /// The decode invariant of the event payload, if any.
    pub open spec fn wf(self) -> bool {
        match self {
            ScopeV::Admin => true,
            ScopeV::User => true,
            ScopeV::Event(c) => c.wf(),
        }
    }
}

impl PartialEq for Scope {
    fn eq(&self, other: &Scope) -> (r: bool) {
        match (self, other) {
            (Scope::Admin, Scope::Admin) => true,
            (Scope::User, Scope::User) => true,
            (Scope::Event(a), Scope::Event(b)) => a == b,
            _ => false,
        }
    }
}

impl vstd::std_specs::cmp::PartialEqSpecImpl for Scope {
    open spec fn obeys_eq_spec() -> bool {
        true
    }

    open spec fn eq_spec(&self, other: &Scope) -> bool {
        self@ == other@
    }
}

/// What assembling an event payload returns: slug, then organization ID,
/// stopping at the first failure.
pub open spec fn spec_decode_event_scope(m: Map<Seq<char>, Seq<u8>>) -> Result<
    EventScopeV,
    Error,
> {
    match spec_get_ascii(m, FieldName::EventSlug) {
        Err(e) => Err(e),
        Ok(event) => match spec_get_i32(m, FieldName::EventOrganizationId) {
            Err(e) => Err(e),
            Ok(organization_id) => Ok(EventScopeV { event, organization_id }),
        },
    }
}

/// What assembling the request's scope returns: the `request-scope`
/// discriminator selects the variant, and `event` requires its payload.
pub open spec fn spec_decode_scope(m: Map<Seq<char>, Seq<u8>>) -> Result<ScopeV, Error> {
    match spec_get_request_scope(m) {
        Err(e) => Err(e),
        Ok(RequestScope::Admin) => Ok(ScopeV::Admin),
        Ok(RequestScope::User) => Ok(ScopeV::User),
        Ok(RequestScope::Event) => match spec_decode_event_scope(m) {
            Ok(c) => Ok(ScopeV::Event(c)),
            Err(e) => Err(e),
        },
    }
}

impl EventScope {
    /// Assemble the payload from a header map, exactly as
    /// [`spec_decode_event_scope`] says.
    pub fn try_from(headers: &http::HeaderMap) -> (r: Result<EventScope, Error>)
        ensures
            match r {
                Ok(c) => spec_decode_event_scope(header_entries(*headers)) == Ok::<
                    EventScopeV,
                    Error,
                >(c@) && c@.wf(),
                Err(e) => spec_decode_event_scope(header_entries(*headers)) == Err::<
                    EventScopeV,
                    Error,
                >(e),
            },
    {
        let event = match get_ascii(headers, FieldName::EventSlug) {
            Ok(v) => v,
            Err(e) => return Err(e),
        };
        let organization_id = match get_i32(headers, FieldName::EventOrganizationId) {
            Ok(v) => v,
            Err(e) => return Err(e),
        };
        proof {
            crate::codec::lemma_ascii_bytes_utf8(
                entry_of(header_entries(*headers), FieldName::EventSlug).unwrap(),
            );
        }
        Ok(EventScope { event, organization_id })
    }
}

impl Scope {
    /// Assemble the request's scope from a header map, exactly as
    /// [`spec_decode_scope`] says: the discriminator field selects the
    /// variant, and decoding stops at the first failing field.
    pub fn try_from(headers: &http::HeaderMap) -> (r: Result<Scope, Error>)
        ensures
            match r {
                Ok(s) => spec_decode_scope(header_entries(*headers)) == Ok::<ScopeV, Error>(s@)
                    && s@.wf(),
                Err(e) => spec_decode_scope(header_entries(*headers)) == Err::<ScopeV, Error>(e),
            },
    {
        let scope = match get_request_scope(headers) {
            Ok(s) => s,
            Err(e) => return Err(e),
        };
        match scope {
            RequestScope::Admin => Ok(Scope::Admin),
            RequestScope::User => Ok(Scope::User),
            RequestScope::Event => match EventScope::try_from(headers) {
                Ok(c) => Ok(Scope::Event(c)),
                Err(e) => Err(e),
            },
        }
    }
}

/// The fields an event payload adds to a header map.
pub open spec fn spec_event_scope_fields(c: EventScopeV, m0: Map<Seq<char>, Seq<u8>>) -> Map<
    Seq<char>,
    Seq<u8>,
> {
    m0.insert(FieldName::EventSlug.chars(), encode_utf8(c.event)).insert(
        FieldName::EventOrganizationId.chars(),
        spec_format_i32(c.organization_id as int),
    )
}

/// The fields the request's scope writes to a header map: the
/// discriminator first, then the event payload when present.
pub open spec fn spec_scope_fields(s: ScopeV, m0: Map<Seq<char>, Seq<u8>>) -> Map<
    Seq<char>,
    Seq<u8>,
> {
    match s {
        ScopeV::Admin => m0.insert(
            FieldName::RequestScope.chars(),
            encode_utf8(RequestScope::Admin.token()),
        ),
        ScopeV::User => m0.insert(
            FieldName::RequestScope.chars(),
            encode_utf8(RequestScope::User.token()),
        ),
        ScopeV::Event(c) => spec_event_scope_fields(
            c,
            m0.insert(FieldName::RequestScope.chars(), encode_utf8(RequestScope::Event.token())),
        ),
    }
}

impl EventScopeV {
    /// True when the slug's bytes are accepted on the wire.
    pub open spec fn transportable(self) -> bool {
        wire_value(encode_utf8(self.event))
    }
}

impl ScopeV {
    /// True when the event payload's bytes, if any, are accepted on the
    /// wire.
    pub open spec fn transportable(self) -> bool {
        match self {
            ScopeV::Admin => true,
            ScopeV::User => true,
            ScopeV::Event(c) => c.transportable(),
        }
    }
}

impl EventScope {
    /// Write the payload fields to request headers.
    pub fn write_headers(self, headers: &mut http::HeaderMap)
        requires
            self@.transportable(),
            header_count(*old(headers)) + 2 <= 6554,
        ensures
            header_entries(*final(headers)) == spec_event_scope_fields(
                self@,
                header_entries(*old(headers)),
            ),
            header_count(*final(headers)) <= header_count(*old(headers)) + 2,
    {
        let event = self.event.as_str().as_bytes_vec();
        set_raw(headers, FieldName::EventSlug, event.as_slice());
        proof {
            lemma_format_i32_wire(self.organization_id as int);
        }
        let organization_id = format_i32(self.organization_id);
        set_raw(headers, FieldName::EventOrganizationId, organization_id.as_slice());
    }
}

impl Scope {
    /// Write the scope to request headers: the discriminator field first,
    /// then the event payload fields when present.
    pub fn write_headers(self, headers: &mut http::HeaderMap)
        requires
            self@.transportable(),
            header_count(*old(headers)) + 3 <= 6554,
        ensures
            header_entries(*final(headers)) == spec_scope_fields(
                self@,
                header_entries(*old(headers)),
            ),
            header_count(*final(headers)) <= header_count(*old(headers)) + 3,
    {
        proof {
            reveal_strlit("admin");
            reveal_strlit("user");
            reveal_strlit("event");
            lemma_printable_ascii_wire(RequestScope::Admin.token());
            lemma_printable_ascii_wire(RequestScope::User.token());
            lemma_printable_ascii_wire(RequestScope::Event.token());
        }
        match self {
            Scope::Admin => {
                let tok = RequestScope::Admin.encode();
                set_raw(headers, FieldName::RequestScope, tok.as_slice());
            },
            Scope::User => {
                let tok = RequestScope::User.encode();
                set_raw(headers, FieldName::RequestScope, tok.as_slice());
            },
            Scope::Event(context) => {
                let tok = RequestScope::Event.encode();
                set_raw(headers, FieldName::RequestScope, tok.as_slice());
                context.write_headers(headers);
            },
        }
    }

    /// Check whether the scope can be written to request headers: the
    /// slug holds only ASCII and its bytes are accepted on the wire.
    pub fn transport_ok(&self) -> (r: bool)
        ensures
            r == (self@.wf() && self@.transportable()),
    {
        match self {
            Scope::Admin => true,
            Scope::User => true,
            Scope::Event(c) => c.event.as_str().is_ascii() && crate::headers::text_wire_ok(
                c.event.as_str(),
            ),
        }
    }

    /// Serialize the scope into fresh request headers; decoding them gives
    /// the scope back.
    pub fn into_headers(self) -> (r: http::HeaderMap)
        requires
            self@.wf(),
            self@.transportable(),
        ensures
            header_entries(r) == spec_scope_fields(self@, empty_entries()),
            spec_decode_scope(header_entries(r)) == Ok::<ScopeV, Error>(self@),
    {
        let ghost s = self@;
        let mut map = new_header_map();
        self.write_headers(&mut map);
        proof {
            lemma_scope_round_trip(s);
        }
        map
    }
}

/// Round trip: for every well-formed scope, decoding the fields it writes
/// to an empty map yields exactly that scope.
#[verifier::rlimit(60)]
pub proof fn lemma_scope_round_trip(s: ScopeV)
    requires
        s.wf(),
    ensures
        spec_decode_scope(spec_scope_fields(s, empty_entries())) == Ok::<ScopeV, Error>(s),
{
    broadcast use vstd::utf8::encode_utf8_valid_utf8, vstd::utf8::encode_utf8_decode_utf8;

    reveal_strlit("admin");
    reveal_strlit("user");
    reveal_strlit("event");
    reveal_strlit("request-scope");
    reveal_strlit("event-slug");
    reveal_strlit("event-organization-id");
    let m = spec_scope_fields(s, empty_entries());
    match s {
        ScopeV::Admin => {
            RequestScope::Admin.lemma_round_trip();
        },
        ScopeV::User => {
            RequestScope::User.lemma_round_trip();
        },
        ScopeV::Event(c) => {
            RequestScope::Event.lemma_round_trip();
            lemma_ascii_chars_bytes(c.event);
            lemma_format_parse_i32(c.organization_id as int);
            assert("request-scope"@.len() == 13);
            assert("event-slug"@.len() == 10);
            assert("event-organization-id"@.len() == 21);
            assert(entry_of(m, FieldName::RequestScope) == Some(
                encode_utf8(RequestScope::Event.token()),
            ));
            assert(entry_of(m, FieldName::EventSlug) == Some(encode_utf8(c.event)));
            assert(entry_of(m, FieldName::EventOrganizationId) == Some(
                spec_format_i32(c.organization_id as int),
            ));
            assert(spec_decode_event_scope(m) == Ok::<EventScopeV, Error>(c));
        },
    }
}

} // verus!
