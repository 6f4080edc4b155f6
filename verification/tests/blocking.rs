use webview2_client::blocking::{
    filter_request, forbidden, is_blocked, ResourceContext, Response, Verdict, FORBIDDEN_STATUS,
};

fn denylist() -> Vec<String> {
    vec![
        "ads.example".to_string(),
        "tracker.test".to_string(),
        "metrics.invalid".to_string(),
        "beacon.localhost".to_string(),
    ]
}

#[test]
fn forbidden_response_is_fixed() {
    assert_eq!(FORBIDDEN_STATUS, 403);
    assert_eq!(
        forbidden(),
        Response {
            status: 403,
            reason: "Forbidden",
            headers: "Content-Type: text/plain",
            body: "Blocked by client",
        }
    );
}

#[test]
fn address_naming_a_listed_domain_is_blocked() {
    for address in [
        "https://ads.example/banner.js",
        "https://cdn.tracker.test/t.js?id=1",
        "http://metrics.invalid",
        "wss://beacon.localhost:8080/socket",
    ] {
        assert_eq!(
            filter_request(ResourceContext::Script, address, &denylist()),
            Verdict::Block(forbidden()),
            "{}",
            address
        );
    }
}

#[test]
fn domain_anywhere_in_the_address_blocks() {
    assert!(is_blocked("https://example.org/redirect?to=ads.example", &denylist()));
    assert!(is_blocked("ads.example", &denylist()));
    assert!(is_blocked("xads.examplex", &denylist()));
}

#[test]
fn address_naming_no_listed_domain_passes() {
    for address in [
        "",
        "https://kirka.io/",
        "https://ads.exampl/banner.js",
        "https://ADS.EXAMPLE/banner.js",
        "https://ads-example/",
        "https://tracker.tes",
    ] {
        assert_eq!(
            filter_request(ResourceContext::Script, address, &denylist()),
            Verdict::Pass,
            "{}",
            address
        );
    }
}

#[test]
fn empty_denylist_blocks_nothing() {
    assert_eq!(
        filter_request(ResourceContext::Script, "https://ads.example/", &Vec::new()),
        Verdict::Pass
    );
    assert!(!is_blocked("", &Vec::new()));
}

#[test]
fn empty_entry_blocks_everything() {
    let list = vec![String::new()];
    assert!(is_blocked("https://kirka.io/", &list));
    assert!(is_blocked("", &list));
}

#[test]
fn last_entry_of_the_list_is_tested_too() {
    assert!(is_blocked("beacon.localhost", &denylist()));
    let single = vec!["beacon.localhost".to_string()];
    assert!(is_blocked("https://beacon.localhost/", &single));
    assert!(!is_blocked("https://ads.example/", &single));
}

#[test]
fn blocking_agrees_with_std_contains() {
    let addresses = [
        "https://ads.example/a", "https://tracker.test", "metrics.invali", "beacon.localhostt",
        "https://kirka.io", "a", "",
    ];
    let list = denylist();
    for address in addresses {
        let expected = list.iter().any(|domain| address.contains(domain.as_str()));
        assert_eq!(is_blocked(address, &list), expected, "{}", address);
    }
}

#[test]
fn request_for_anything_but_a_script_passes() {
    assert_eq!(
        filter_request(ResourceContext::Other, "https://ads.example/banner.png", &denylist()),
        Verdict::Pass
    );
    assert_eq!(
        filter_request(ResourceContext::Other, "x", &vec![String::new()]),
        Verdict::Pass
    );
}
