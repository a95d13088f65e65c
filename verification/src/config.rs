//! Directory configuration: the five required proxy-injected headers read
//! into one record, all-or-nothing, and the service's startup options.
use vstd::prelude::*;
use vstd::string::StringExecFns;

verus! {

/// How to reach and query the directory service, built once per request from
/// the five required headers; values are taken verbatim.
pub struct DirectoryConfig {
    /// Directory service address.
    pub url: String,
    /// Search base distinguished name.
    pub base_dn: String,
    /// Bind distinguished name (read but not used by the search/bind flow).
    pub bind_dn: String,
    /// Bind password (likewise).
    pub bind_pass: String,
    /// Search filter template holding the username placeholder.
    pub filter_template: String,
}

/// Names of the five required headers, in the order they are checked; also
/// the error naming the first missing one.
#[derive(Clone, Copy, Debug, PartialEq, Eq)]
pub enum LdapHeader {
    Url,
    BaseDn,
    BindDn,
    BindPass,
    Template,
}

impl LdapHeader {
    /// The header name on the wire for this required header.
    pub fn name(&self) -> (r: &'static str)
        ensures
            r@ == match *self {
                LdapHeader::Url => "X-Ldap-URL"@,
                LdapHeader::BaseDn => "X-Ldap-BaseDN"@,
                LdapHeader::BindDn => "X-Ldap-BindDN"@,
                LdapHeader::BindPass => "X-Ldap-BindPass"@,
                LdapHeader::Template => "X-Ldap-Template"@,
            },
    {
        match *self {
            LdapHeader::Url => "X-Ldap-URL",
            LdapHeader::BaseDn => "X-Ldap-BaseDN",
            LdapHeader::BindDn => "X-Ldap-BindDN",
            LdapHeader::BindPass => "X-Ldap-BindPass",
            LdapHeader::Template => "X-Ldap-Template",
        }
    }
}

/// The first required header missing from the inputs, in the fixed order
/// url, base DN, bind DN, bind password, template; `None` when all five are
/// present.
pub open spec fn spec_first_missing(
    url: Option<Seq<char>>,
    base_dn: Option<Seq<char>>,
    bind_dn: Option<Seq<char>>,
    bind_pass: Option<Seq<char>>,
    template: Option<Seq<char>>,
) -> Option<LdapHeader> {
    if url is None {
        Some(LdapHeader::Url)
    } else if base_dn is None {
        Some(LdapHeader::BaseDn)
    } else if bind_dn is None {
        Some(LdapHeader::BindDn)
    } else if bind_pass is None {
        Some(LdapHeader::BindPass)
    } else if template is None {
        Some(LdapHeader::Template)
    } else {
        None
    }
}

/// Builds the directory configuration from the five required header values.
/// Extraction is all-or-nothing: if any header is absent the whole record is
/// rejected, naming the first missing header; on success every field holds
/// the corresponding header's value exactly.
pub fn get_ldap_options_from_headers(
    url: Option<String>,
    base_dn: Option<String>,
    bind_dn: Option<String>,
    bind_pass: Option<String>,
    template: Option<String>,
) -> (r: Result<DirectoryConfig, LdapHeader>)
    ensures
        match r {
            Ok(c) => {
                &&& url matches Some(u) && c.url == u
                &&& base_dn matches Some(b) && c.base_dn == b
                &&& bind_dn matches Some(d) && c.bind_dn == d
                &&& bind_pass matches Some(p) && c.bind_pass == p
                &&& template matches Some(t) && c.filter_template == t
            },
            Err(e) => Some(e) == spec_first_missing(
                match url {
                    Some(u) => Some(u@),
                    None => None,
                },
                match base_dn {
                    Some(b) => Some(b@),
                    None => None,
                },
                match bind_dn {
                    Some(d) => Some(d@),
                    None => None,
                },
                match bind_pass {
                    Some(p) => Some(p@),
                    None => None,
                },
                match template {
                    Some(t) => Some(t@),
                    None => None,
                },
            ),
        },
        r is Ok <==> (url is Some && base_dn is Some && bind_dn is Some && bind_pass is Some
            && template is Some),
{
    let url = match url {
        Some(u) => u,
        None => {
            return Err(LdapHeader::Url);
        },
    };
    let base_dn = match base_dn {
        Some(b) => b,
        None => {
            return Err(LdapHeader::BaseDn);
        },
    };
    let bind_dn = match bind_dn {
        Some(d) => d,
        None => {
            return Err(LdapHeader::BindDn);
        },
    };
    let bind_pass = match bind_pass {
        Some(p) => p,
        None => {
            return Err(LdapHeader::BindPass);
        },
    };
    let filter_template = match template {
        Some(t) => t,
        None => {
            return Err(LdapHeader::Template);
        },
    };
    Ok(DirectoryConfig { url, base_dn, bind_dn, bind_pass, filter_template })
}

/// The service's startup options: where to listen and on which endpoint.
pub struct Cli {
    /// Host to bind.
    pub hostname: String,
    /// Port to bind.
    pub port: i32,
    /// The endpoint the authentication service responds on.
    pub auth_endpoint: String,
}

impl Default for Cli {
    /// The documented defaults: localhost, port 8888, endpoint /auth-proxy.
    fn default() -> (c: Cli)
        ensures
            c.hostname@ == "localhost"@,
            c.port == 8888,
            c.auth_endpoint@ == "/auth-proxy"@,
    {
        Cli {
            hostname: String::from_str("localhost"),
            port: 8888,
            auth_endpoint: String::from_str("/auth-proxy"),
        }
    }
}

} // verus!
