use ldap_authd::config::{get_ldap_options_from_headers, Cli, LdapHeader};

fn all_headers() -> (
    Option<String>,
    Option<String>,
    Option<String>,
    Option<String>,
    Option<String>,
) {
    (
        Some("ldap://localhost:389".to_string()),
        Some("dc=example,dc=org".to_string()),
        Some("cn=admin,dc=example,dc=org".to_string()),
        Some("adminpass".to_string()),
        Some("(uid=%(username)s)".to_string()),
    )
}

#[test]
fn test_config_all_present_verbatim() {
    let (url, base_dn, bind_dn, bind_pass, template) = all_headers();
    let config = get_ldap_options_from_headers(url, base_dn, bind_dn, bind_pass, template).unwrap();
    assert_eq!(config.url, "ldap://localhost:389");
    assert_eq!(config.base_dn, "dc=example,dc=org");
    assert_eq!(config.bind_dn, "cn=admin,dc=example,dc=org");
    assert_eq!(config.bind_pass, "adminpass");
    assert_eq!(config.filter_template, "(uid=%(username)s)");
}

#[test]
fn test_config_missing_url() {
    let (_, base_dn, bind_dn, bind_pass, template) = all_headers();
    let r = get_ldap_options_from_headers(None, base_dn, bind_dn, bind_pass, template);
    assert_eq!(r.err().unwrap(), LdapHeader::Url);
}

#[test]
fn test_config_missing_base_dn() {
    let (url, _, bind_dn, bind_pass, template) = all_headers();
    let r = get_ldap_options_from_headers(url, None, bind_dn, bind_pass, template);
    assert_eq!(r.err().unwrap(), LdapHeader::BaseDn);
}

#[test]
fn test_config_missing_bind_dn() {
    let (url, base_dn, _, bind_pass, template) = all_headers();
    let r = get_ldap_options_from_headers(url, base_dn, None, bind_pass, template);
    assert_eq!(r.err().unwrap(), LdapHeader::BindDn);
}

#[test]
fn test_config_missing_bind_pass() {
    let (url, base_dn, bind_dn, _, template) = all_headers();
    let r = get_ldap_options_from_headers(url, base_dn, bind_dn, None, template);
    assert_eq!(r.err().unwrap(), LdapHeader::BindPass);
}

#[test]
fn test_config_missing_template() {
    let (url, base_dn, bind_dn, bind_pass, _) = all_headers();
    let r = get_ldap_options_from_headers(url, base_dn, bind_dn, bind_pass, None);
    assert_eq!(r.err().unwrap(), LdapHeader::Template);
}

#[test]
fn test_ldap_header_names() {
    assert_eq!(LdapHeader::Url.name(), "X-Ldap-URL");
    assert_eq!(LdapHeader::BaseDn.name(), "X-Ldap-BaseDN");
    assert_eq!(LdapHeader::BindDn.name(), "X-Ldap-BindDN");
    assert_eq!(LdapHeader::BindPass.name(), "X-Ldap-BindPass");
    assert_eq!(LdapHeader::Template.name(), "X-Ldap-Template");
}

#[test]
fn test_cli_defaults() {
    let cli = Cli::default();
    assert_eq!(cli.hostname, "localhost");
    assert_eq!(cli.port, 8888);
    assert_eq!(cli.auth_endpoint, "/auth-proxy");
}
