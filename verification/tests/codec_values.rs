use authctx::codec::{decode_ascii_text, decode_utf8_text, format_i32, parse_i32};
use authctx::headers::{RequestScope, UserIsAdmin, UserSession, ValueError};
use authctx::{AuthenticatedUser, EventScope, Scope, User, UserRole};

#[test]
fn parse_i32_accepts_plain_decimals() {
    assert_eq!(parse_i32(b"0"), Some(0));
    assert_eq!(parse_i32(b"5"), Some(5));
    assert_eq!(parse_i32(b"007"), Some(7));
    assert_eq!(parse_i32(b"+55"), Some(55));
    assert_eq!(parse_i32(b"-99"), Some(-99));
}

#[test]
fn parse_i32_covers_the_full_range() {
    assert_eq!(parse_i32(b"2147483647"), Some(i32::MAX));
    assert_eq!(parse_i32(b"-2147483648"), Some(i32::MIN));
    assert_eq!(parse_i32(b"2147483648"), None);
    assert_eq!(parse_i32(b"-2147483649"), None);
    assert_eq!(parse_i32(b"99999999999999999999"), None);
}

#[test]
fn parse_i32_rejects_malformed_input() {
    assert_eq!(parse_i32(b""), None);
    assert_eq!(parse_i32(b"+"), None);
    assert_eq!(parse_i32(b"-"), None);
    assert_eq!(parse_i32(b"af"), None);
    assert_eq!(parse_i32(b"1 2"), None);
    assert_eq!(parse_i32(b"5."), None);
    assert_eq!(parse_i32(b"+-5"), None);
}

#[test]
fn format_i32_renders_canonical_decimals() {
    assert_eq!(format_i32(0), b"0");
    assert_eq!(format_i32(5), b"5");
    assert_eq!(format_i32(79), b"79");
    assert_eq!(format_i32(-99), b"-99");
    assert_eq!(format_i32(i32::MAX), b"2147483647");
    assert_eq!(format_i32(i32::MIN), b"-2147483648");
}

#[test]
fn format_then_parse_is_identity() {
    for n in [0, 1, -1, 55, -55, 1000000, i32::MAX, i32::MIN] {
        assert_eq!(parse_i32(&format_i32(n)), Some(n));
    }
}

#[test]
fn ascii_text_rejects_non_ascii_bytes() {
    assert_eq!(decode_ascii_text(b"wafflehacks").unwrap(), "wafflehacks");
    assert_eq!(
        decode_ascii_text("\u{f6}ne".as_bytes()).unwrap_err(),
        ValueError::NotAscii
    );
    assert_eq!(decode_ascii_text(&[0xffu8]).unwrap_err(), ValueError::NotAscii);
}

#[test]
fn utf8_text_accepts_valid_and_rejects_invalid_sequences() {
    assert_eq!(
        decode_utf8_text("hell\u{f6}@w\u{f6}rld".as_bytes()).unwrap(),
        "hell\u{f6}@w\u{f6}rld"
    );
    assert_eq!(decode_utf8_text(&[0xff, 0xfe]).unwrap_err(), ValueError::NotUtf8);
    assert_eq!(decode_utf8_text(&[0xc3]).unwrap_err(), ValueError::NotUtf8);
    assert_eq!(decode_utf8_text(&[0xed, 0xa0, 0x80]).unwrap_err(), ValueError::NotUtf8);
}

#[test]
fn tokens_decode_case_sensitively() {
    assert_eq!(UserSession::decode(b"oauth").unwrap(), UserSession::OAuth);
    assert_eq!(
        UserSession::decode(b"OAuth").unwrap_err(),
        ValueError::UnknownToken
    );
    assert_eq!(RequestScope::decode(b"event").unwrap(), RequestScope::Event);
    assert_eq!(
        RequestScope::decode(b"Event").unwrap_err(),
        ValueError::UnknownToken
    );
    assert_eq!(UserRole::decode(b"director").unwrap(), UserRole::Director);
    assert_eq!(UserRole::decode(b"boss").unwrap_err(), ValueError::UnknownToken);
    assert_eq!(UserIsAdmin::decode(b"false").unwrap(), UserIsAdmin(false));
    assert_eq!(UserIsAdmin::decode(b"0").unwrap_err(), ValueError::UnknownToken);
}

#[test]
fn tokens_encode_canonically() {
    assert_eq!(UserSession::RegistrationNeeded.encode(), b"registration-needed");
    assert_eq!(RequestScope::Admin.encode(), b"admin");
    assert_eq!(UserRole::Participant.encode(), b"participant");
    assert_eq!(UserIsAdmin(true).encode(), b"true");
    assert_eq!(UserIsAdmin::from(true).into_inner(), true);
}

#[test]
fn transport_check_accepts_ordinary_values_and_rejects_bad_ones() {
    let good = User::Authenticated(AuthenticatedUser {
        id: 1,
        given_name: String::from("J\u{f6}hn"),
        family_name: String::from("Doe"),
        email: String::from("a@b.c"),
        role: None,
        is_admin: false,
    });
    assert!(good.transport_ok());

    let newline_in_name = User::Authenticated(AuthenticatedUser {
        id: 1,
        given_name: String::from("line\nbreak"),
        family_name: String::from("Doe"),
        email: String::from("a@b.c"),
        role: None,
        is_admin: false,
    });
    assert!(!newline_in_name.transport_ok());

    let non_ascii_provider = User::RegistrationNeeded(authctx::UserRegistrationNeeded {
        provider: String::from("g\u{f6}\u{f6}gle"),
        id: String::from("123"),
        email: String::from("a@b.c"),
    });
    assert!(!non_ascii_provider.transport_ok());

    assert!(Scope::Admin.transport_ok());
    assert!(Scope::Event(EventScope {
        event: String::from("wafflehacks"),
        organization_id: 5,
    })
    .transport_ok());
    assert!(!Scope::Event(EventScope {
        event: String::from("\u{f6}ne"),
        organization_id: 5,
    })
    .transport_ok());
}
