use authctx::event::Params;
use authctx::ScopeParams;

fn pairs(items: &[(&str, &str)]) -> Vec<(String, String)> {
    items
        .iter()
        .map(|(k, v)| (String::from(*k), String::from(*v)))
        .collect()
}

#[test]
fn scope_round_trip_params_domain() {
    let params = ScopeParams::Domain(String::from("wafflehacks.org"));
    let (key, value) = params.to_pair();
    assert_eq!(key, "domain");
    assert_eq!(value, "wafflehacks.org");

    let decoded = ScopeParams::from_pairs(&vec![(key, value)]).unwrap();
    assert_eq!(params, decoded);
}

#[test]
fn scope_round_trip_params_slug() {
    let params = ScopeParams::Slug(String::from("wafflehacks-2023"));
    let (key, value) = params.to_pair();
    assert_eq!(key, "slug");
    assert_eq!(value, "wafflehacks-2023");

    let decoded = ScopeParams::from_pairs(&vec![(key, value)]).unwrap();
    assert_eq!(params, decoded);
}

#[test]
fn event_round_trip_params_domain() {
    let params = Params::Domain(String::from("wafflehacks.org"));
    let (key, value) = params.to_pair();
    assert_eq!(key, "domain");
    assert_eq!(value, "wafflehacks.org");

    let decoded = Params::from_pairs(&vec![(key, value)]).unwrap();
    assert_eq!(params, decoded);
}

#[test]
fn event_round_trip_params_slug() {
    let params = Params::Slug(String::from("wafflehacks-2023"));
    let (key, value) = params.to_pair();
    assert_eq!(key, "slug");
    assert_eq!(value, "wafflehacks-2023");

    let decoded = Params::from_pairs(&vec![(key, value)]).unwrap();
    assert_eq!(params, decoded);
}

#[test]
fn scope_params_domain_from_request() {
    let query = pairs(&[("domain", "wafflehacks.org")]);
    let params = ScopeParams::from_pairs(&query).unwrap();
    assert_eq!(params, ScopeParams::Domain(String::from("wafflehacks.org")));
}

#[test]
fn scope_params_slug_from_request() {
    let query = pairs(&[("slug", "wafflehacks-2023")]);
    let params = ScopeParams::from_pairs(&query).unwrap();
    assert_eq!(params, ScopeParams::Slug(String::from("wafflehacks-2023")));
}

#[test]
fn event_params_domain_from_request() {
    let query = pairs(&[("domain", "wafflehacks.org")]);
    let params = Params::from_pairs(&query).unwrap();
    assert_eq!(params, Params::Domain(String::from("wafflehacks.org")));
}

#[test]
fn event_params_slug_from_request() {
    let query = pairs(&[("slug", "wafflehacks-2023")]);
    let params = Params::from_pairs(&query).unwrap();
    assert_eq!(params, Params::Slug(String::from("wafflehacks-2023")));
}

#[test]
fn params_first_matching_key_wins() {
    let query = pairs(&[
        ("other", "x"),
        ("slug", "first"),
        ("domain", "second"),
    ]);
    let params = ScopeParams::from_pairs(&query).unwrap();
    assert_eq!(params, ScopeParams::Slug(String::from("first")));

    let query = pairs(&[("domain", "second"), ("slug", "first")]);
    let params = ScopeParams::from_pairs(&query).unwrap();
    assert_eq!(params, ScopeParams::Domain(String::from("second")));
}

#[test]
fn params_neither_key_is_an_error() {
    let query = pairs(&[("other", "x"), ("more", "y")]);
    assert!(ScopeParams::from_pairs(&query).is_none());
    assert!(Params::from_pairs(&pairs(&[])).is_none());
}
