use ldap_authd::auth::Credentials;
use ldap_authd::config::DirectoryConfig;
use ldap_authd::directory::{
    start_verification, verify_step, BindOutcome, SearchOutcome, VerifyEvent, VerifyFailure,
    VerifyState,
};

fn credentials() -> Credentials {
    Credentials {
        username: "mkapra".to_string(),
        password: "test123".to_string(),
    }
}

fn config() -> DirectoryConfig {
    DirectoryConfig {
        url: "ldap://localhost:389".to_string(),
        base_dn: "dc=example,dc=org".to_string(),
        bind_dn: "cn=admin,dc=example,dc=org".to_string(),
        bind_pass: "adminpass".to_string(),
        filter_template: "(uid=%(username)s)".to_string(),
    }
}

fn searching_state() -> VerifyState {
    start_verification(&credentials(), &config())
}

#[test]
fn test_search_filter_substitution() {
    match searching_state() {
        VerifyState::Searching { query, password } => {
            assert_eq!(query.url, "ldap://localhost:389");
            assert_eq!(query.base_dn, "dc=example,dc=org");
            assert_eq!(query.filter, "(uid=mkapra)");
            assert_eq!(password, "test123");
        }
        _ => panic!("verification must start in the searching state"),
    }
}

#[test]
fn test_search_filter_substitutes_every_occurrence() {
    let mut cfg = config();
    cfg.filter_template = "(|(uid=%(username)s)(cn=%(username)s))".to_string();
    match start_verification(&credentials(), &cfg) {
        VerifyState::Searching { query, .. } => {
            assert_eq!(query.filter, "(|(uid=mkapra)(cn=mkapra))");
        }
        _ => panic!("verification must start in the searching state"),
    }
}

#[test]
fn test_empty_search_denies() {
    let next = verify_step(
        searching_state(),
        VerifyEvent::SearchCompleted(SearchOutcome::Entries(vec![])),
    );
    match next {
        VerifyState::Done { verdict } => {
            assert_eq!(verdict, Err(VerifyFailure::DirectoryDenied));
        }
        _ => panic!("an empty search must end the protocol at once"),
    }
}

#[test]
fn test_failed_search_unavailable() {
    let next = verify_step(
        searching_state(),
        VerifyEvent::SearchCompleted(SearchOutcome::Failed),
    );
    match next {
        VerifyState::Done { verdict } => {
            assert_eq!(verdict, Err(VerifyFailure::DirectoryUnavailable));
        }
        _ => panic!("a failed search must end the protocol at once"),
    }
}

#[test]
fn test_first_entry_wins() {
    let entries = vec![
        "uid=mkapra,dc=example,dc=org".to_string(),
        "uid=other,dc=example,dc=org".to_string(),
    ];
    let next = verify_step(
        searching_state(),
        VerifyEvent::SearchCompleted(SearchOutcome::Entries(entries)),
    );
    match next {
        VerifyState::Binding { request } => {
            assert_eq!(request.url, "ldap://localhost:389");
            assert_eq!(request.user_dn, "uid=mkapra,dc=example,dc=org");
            assert_eq!(request.password, "test123");
        }
        _ => panic!("a non-empty search must lead to the bind phase"),
    }
}

fn binding_state() -> VerifyState {
    verify_step(
        searching_state(),
        VerifyEvent::SearchCompleted(SearchOutcome::Entries(vec![
            "uid=mkapra,dc=example,dc=org".to_string(),
        ])),
    )
}

#[test]
fn test_bind_success_authorizes() {
    let next = verify_step(
        binding_state(),
        VerifyEvent::BindCompleted(BindOutcome::Success),
    );
    match next {
        VerifyState::Done { verdict } => assert_eq!(verdict, Ok(())),
        _ => panic!("a successful bind must end the protocol"),
    }
}

#[test]
fn test_bind_transport_error_denies() {
    let next = verify_step(
        binding_state(),
        VerifyEvent::BindCompleted(BindOutcome::TransportError),
    );
    match next {
        VerifyState::Done { verdict } => {
            assert_eq!(verdict, Err(VerifyFailure::DirectoryDenied));
        }
        _ => panic!("a bind transport error must end the protocol"),
    }
}

#[test]
fn test_bind_result_error_denies() {
    let next = verify_step(
        binding_state(),
        VerifyEvent::BindCompleted(BindOutcome::ResultError),
    );
    match next {
        VerifyState::Done { verdict } => {
            assert_eq!(verdict, Err(VerifyFailure::DirectoryDenied));
        }
        _ => panic!("a bind result error must end the protocol"),
    }
}
