use ldap_authd::directory::{BindOutcome, SearchOutcome};
use ldap_authd::handler::{
    challenge_header_name, challenge_header_value, handle_auth_request, AuthResponse,
};

const VALID_HEADER: &str = "Basic bWthcHJhOnRlc3QxMjMK";

fn full_config() -> (
    Option<String>,
    Option<String>,
    Option<String>,
    Option<String>,
    Option<String>,
) {
    (
        Some("ldap://localhost:389".to_string()),
        Some("dc=example,dc=org".to_string()),
        Some("cn=admin,dc=example,dc=org".to_string()),
        Some("adminpass".to_string()),
        Some("(uid=%(username)s)".to_string()),
    )
}

fn one_entry() -> SearchOutcome {
    SearchOutcome::Entries(vec!["uid=mkapra,dc=example,dc=org".to_string()])
}

#[test]
fn test_no_auth_header_unauthorized() {
    let (url, base_dn, bind_dn, bind_pass, template) = full_config();
    let r = handle_auth_request(
        None,
        url,
        base_dn,
        bind_dn,
        bind_pass,
        template,
        one_entry(),
        BindOutcome::Success,
    );
    assert_eq!(
        r,
        AuthResponse {
            status: 401,
            challenge: true
        }
    );
    assert_eq!(challenge_header_name(), "WWW-Authenticate");
    assert_eq!(challenge_header_value(), "Basic realm=\"Restricted\"");
}

#[test]
fn test_missing_base_dn_bad_request() {
    let (url, _, bind_dn, bind_pass, template) = full_config();
    let r = handle_auth_request(
        Some(VALID_HEADER),
        url,
        None,
        bind_dn,
        bind_pass,
        template,
        one_entry(),
        BindOutcome::Success,
    );
    assert_eq!(
        r,
        AuthResponse {
            status: 400,
            challenge: false
        }
    );
}

#[test]
fn test_zero_results_unauthorized() {
    let (url, base_dn, bind_dn, bind_pass, template) = full_config();
    let r = handle_auth_request(
        Some(VALID_HEADER),
        url,
        base_dn,
        bind_dn,
        bind_pass,
        template,
        SearchOutcome::Entries(vec![]),
        BindOutcome::Success,
    );
    assert_eq!(
        r,
        AuthResponse {
            status: 401,
            challenge: true
        }
    );
}

#[test]
fn test_full_success_ok() {
    let (url, base_dn, bind_dn, bind_pass, template) = full_config();
    let r = handle_auth_request(
        Some(VALID_HEADER),
        url,
        base_dn,
        bind_dn,
        bind_pass,
        template,
        one_entry(),
        BindOutcome::Success,
    );
    assert_eq!(
        r,
        AuthResponse {
            status: 200,
            challenge: false
        }
    );
}

#[test]
fn test_wrong_password_unauthorized() {
    let (url, base_dn, bind_dn, bind_pass, template) = full_config();
    let r = handle_auth_request(
        Some(VALID_HEADER),
        url,
        base_dn,
        bind_dn,
        bind_pass,
        template,
        one_entry(),
        BindOutcome::ResultError,
    );
    assert_eq!(
        r,
        AuthResponse {
            status: 401,
            challenge: true
        }
    );
}

#[test]
fn test_decode_failure_server_error() {
    let (url, base_dn, bind_dn, bind_pass, template) = full_config();
    let r = handle_auth_request(
        Some("Basic !!!"),
        url,
        base_dn,
        bind_dn,
        bind_pass,
        template,
        one_entry(),
        BindOutcome::Success,
    );
    assert_eq!(
        r,
        AuthResponse {
            status: 500,
            challenge: false
        }
    );
}

#[test]
fn test_identical_request_identical_status() {
    let mut statuses = Vec::new();
    for _ in 0..2 {
        let (url, base_dn, bind_dn, bind_pass, template) = full_config();
        let r = handle_auth_request(
            Some(VALID_HEADER),
            url,
            base_dn,
            bind_dn,
            bind_pass,
            template,
            one_entry(),
            BindOutcome::Success,
        );
        statuses.push(r);
    }
    assert_eq!(statuses[0], statuses[1]);
}
