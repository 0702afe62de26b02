//! The event context a request can be resolved against.

use vstd::prelude::*;
use vstd::string::StringExecFns;
use vstd::utf8::is_ascii_chars;

verus! {

use crate::codec::{format_i32, lemma_ascii_chars_bytes, lemma_format_parse_i32, spec_format_i32};
use crate::headers::{
    empty_entries, entry_of, get_ascii, get_i32, header_count, header_entries,
    lemma_format_i32_wire, new_header_map, set_raw, spec_get_ascii, spec_get_i32, wire_value,
    Error, FieldName,
};
use crate::scope::{pairs_view, spec_params_from_pairs, ScopeParams, ScopeParamsV};
use vstd::utf8::encode_utf8;

/// Query parameters for fetching the event context: exactly one of a
/// domain or a slug lookup key.
#[derive(Clone, Debug)]
pub enum Params {
    /// Find event context for a domain.
    Domain(String),
    /// Find event context for a slug.
    Slug(String),
}

/// The mathematical value of a [`Params`].
pub ghost enum ParamsV {
    /// Find event context for a domain.
    Domain(Seq<char>),
    /// Find event context for a slug.
    Slug(Seq<char>),
}

impl View for Params {
    type V = ParamsV;

    open spec fn view(&self) -> ParamsV {
        match self {
            Params::Domain(d) => ParamsV::Domain(d@),
            Params::Slug(s) => ParamsV::Slug(s@),
        }
    }
}

/// The [`Params`] value that stands for a scope lookup selection.
pub open spec fn params_of(p: ScopeParamsV) -> ParamsV {
    match p {
        ScopeParamsV::Domain(d) => ParamsV::Domain(d),
        ScopeParamsV::Slug(s) => ParamsV::Slug(s),
    }
}

impl Params {
    /// Select the lookup from ordered query pairs: the first `slug` or
    /// `domain` key wins; `None` when neither key is present.
    pub fn from_pairs(pairs: &Vec<(String, String)>) -> (r: Option<Params>)
        ensures
            match r {
                Some(p) => (match spec_params_from_pairs(pairs_view(pairs@)) {
                    Some(s) => p@ == params_of(s),
                    None => false,
                }),
                None => spec_params_from_pairs(pairs_view(pairs@)) is None,
            },
    {
        match ScopeParams::from_pairs(pairs) {
            Some(ScopeParams::Domain(d)) => Some(Params::Domain(d)),
            Some(ScopeParams::Slug(s)) => Some(Params::Slug(s)),
            None => None,
        }
    }

    /// The single query pair this lookup serializes to.
    pub fn to_pair(&self) -> (r: (String, String))
        ensures
            match self {
                Params::Domain(d) => r.0@ == "domain"@ && r.1@ == d@,
                Params::Slug(s) => r.0@ == "slug"@ && r.1@ == s@,
            },
    {
        match self {
            Params::Domain(d) => (String::from_str("domain"), d.clone()),
            Params::Slug(s) => (String::from_str("slug"), s.clone()),
        }
    }
}

impl PartialEq for Params {
    fn eq(&self, other: &Params) -> (r: bool) {
        match (self, other) {
            (Params::Domain(a), Params::Domain(b)) => *a == *b,
            (Params::Slug(a), Params::Slug(b)) => *a == *b,
            _ => false,
        }
    }
}

impl vstd::std_specs::cmp::PartialEqSpecImpl for Params {
    open spec fn obeys_eq_spec() -> bool {
        true
    }

    open spec fn eq_spec(&self, other: &Params) -> bool {
        self@ == other@
    }
}

/// The event context response.
#[derive(Clone, Debug)]
pub struct Context {
    /// The event slug.
    pub event: String,
    /// The ID of the organization that manages the event.
    pub organization_id: i32,
}

/// The mathematical value of a [`Context`].
pub ghost struct ContextV {
    /// The event slug's characters.
    pub event: Seq<char>,
    /// The ID of the organization that manages the event.
    pub organization_id: i32,
}

impl View for Context {
    type V = ContextV;

    open spec fn view(&self) -> ContextV {
        ContextV { event: self.event@, organization_id: self.organization_id }
    }
}

impl ContextV {
    /// The decode invariant: the slug is an ASCII field.
    pub open spec fn wf(self) -> bool {
        is_ascii_chars(self.event)
    }
}

impl PartialEq for Context {
    fn eq(&self, other: &Context) -> (r: bool) {
        self.event == other.event && self.organization_id == other.organization_id
    }
}

impl vstd::std_specs::cmp::PartialEqSpecImpl for Context {
    open spec fn obeys_eq_spec() -> bool {
        true
    }

    open spec fn eq_spec(&self, other: &Context) -> bool {
        self@ == other@
    }
}

/// What assembling the event context returns: slug, then organization ID,
/// stopping at the first failure.
pub open spec fn spec_decode_context(m: Map<Seq<char>, Seq<u8>>) -> Result<ContextV, Error> {
    match spec_get_ascii(m, FieldName::EventSlug) {
        Err(e) => Err(e),
        Ok(event) => match spec_get_i32(m, FieldName::EventOrganizationId) {
            Err(e) => Err(e),
            Ok(organization_id) => Ok(ContextV { event, organization_id }),
        },
    }
}

/// The fields the event context writes to a header map.
pub open spec fn spec_context_fields(c: ContextV, m0: Map<Seq<char>, Seq<u8>>) -> Map<
    Seq<char>,
    Seq<u8>,
> {
    m0.insert(FieldName::EventSlug.chars(), encode_utf8(c.event)).insert(
        FieldName::EventOrganizationId.chars(),
        spec_format_i32(c.organization_id as int),
    )
}

impl ContextV {
    /// True when the slug's bytes are accepted on the wire.
    pub open spec fn transportable(self) -> bool {
        wire_value(encode_utf8(self.event))
    }
}

impl Context {
    /// Assemble the event context from a header map, exactly as
    /// [`spec_decode_context`] says.
    pub fn try_from(headers: &http::HeaderMap) -> (r: Result<Context, Error>)
        ensures
            match r {
                Ok(c) => spec_decode_context(header_entries(*headers)) == Ok::<ContextV, Error>(
                    c@,
                ) && c@.wf(),
                Err(e) => spec_decode_context(header_entries(*headers)) == Err::<ContextV, Error>(
                    e,
                ),
            },
    {
        let event = match get_ascii(headers, FieldName::EventSlug) {
            Ok(v) => v,
            Err(e) => return Err(e),
        };
        let organization_id = match get_i32(headers, FieldName::EventOrganizationId) {
            Ok(v) => v,
            Err(e) => return Err(e),
        };
        proof {
            crate::codec::lemma_ascii_bytes_utf8(
                entry_of(header_entries(*headers), FieldName::EventSlug).unwrap(),
            );
        }
        Ok(Context { event, organization_id })
    }

    /// Write the event context to request headers.
    pub fn write_headers(self, headers: &mut http::HeaderMap)
        requires
            self@.transportable(),
            header_count(*old(headers)) + 2 <= 6554,
        ensures
            header_entries(*final(headers)) == spec_context_fields(
                self@,
                header_entries(*old(headers)),
            ),
            header_count(*final(headers)) <= header_count(*old(headers)) + 2,
    {
        let event = self.event.as_str().as_bytes_vec();
        set_raw(headers, FieldName::EventSlug, event.as_slice());
        proof {
            lemma_format_i32_wire(self.organization_id as int);
        }
        let organization_id = format_i32(self.organization_id);
        set_raw(headers, FieldName::EventOrganizationId, organization_id.as_slice());
    }

    /// Check whether the context can be written to request headers: the
    /// slug holds only ASCII and its bytes are accepted on the wire.
    pub fn transport_ok(&self) -> (r: bool)
        ensures
            r == (self@.wf() && self@.transportable()),
    {
        self.event.as_str().is_ascii() && crate::headers::text_wire_ok(self.event.as_str())
    }

    /// Serialize the event context into fresh request headers; decoding
    /// them gives the context back.
    pub fn into_headers(self) -> (r: http::HeaderMap)
        requires
            self@.wf(),
            self@.transportable(),
        ensures
            header_entries(r) == spec_context_fields(self@, empty_entries()),
            spec_decode_context(header_entries(r)) == Ok::<ContextV, Error>(self@),
    {
        let ghost c = self@;
        let mut map = new_header_map();
        self.write_headers(&mut map);
        proof {
            lemma_context_round_trip(c);
        }
        map
    }
}

/// Round trip: for every well-formed event context, decoding the fields
/// it writes to an empty map yields exactly that context.
pub proof fn lemma_context_round_trip(c: ContextV)
    requires
        c.wf(),
    ensures
        spec_decode_context(spec_context_fields(c, empty_entries())) == Ok::<ContextV, Error>(c),
{
    broadcast use vstd::utf8::encode_utf8_valid_utf8, vstd::utf8::encode_utf8_decode_utf8;

    reveal_strlit("event-slug");
    reveal_strlit("event-organization-id");
    let m = spec_context_fields(c, empty_entries());
    lemma_ascii_chars_bytes(c.event);
    lemma_format_parse_i32(c.organization_id as int);
    assert("event-slug"@.len() == 10);
    assert("event-organization-id"@.len() == 21);
    assert(entry_of(m, FieldName::EventSlug) == Some(encode_utf8(c.event)));
    assert(entry_of(m, FieldName::EventOrganizationId) == Some(
        spec_format_i32(c.organization_id as int),
    ));
}

} // verus!
