//! The request handler's decision logic: sequencing the credential
//! extractor, the configuration extractor and the directory verification,
//! and mapping every outcome to an HTTP status.
use crate::auth::{
    get_userdata_from_authorization, spec_userdata, spec_validate, validate_auth_header,
    Credentials,
};
use crate::config::{get_ldap_options_from_headers, DirectoryConfig};
use crate::directory::{
    start_verification, verify_step, BindOutcome, SearchOutcome, VerifyEvent,
    VerifyFailure, VerifyState,
};
use vstd::prelude::*;

verus! {

/// The HTTP verdict of one auth subrequest: the status code, and whether the
/// Basic challenge header accompanies it. No response carries a body.
#[derive(Clone, Copy, Debug, PartialEq, Eq, Structural)]
pub struct AuthResponse {
    pub status: u16,
    /// Whether `WWW-Authenticate: Basic realm="Restricted"` is sent.
    pub challenge: bool,
}

/// The name of the challenge header sent with every unauthorized response.
pub fn challenge_header_name() -> (r: &'static str)
    ensures
        r@ == "WWW-Authenticate"@,
{
    "WWW-Authenticate"
}

/// The value of the challenge header: it makes a browser offer Basic
/// authentication for the restricted realm.
pub fn challenge_header_value() -> (r: &'static str)
    ensures
        r@ == "Basic realm=\"Restricted\""@,
{
    "Basic realm=\"Restricted\""
}

/// Unauthorized, carrying the challenge header.
pub open spec fn unauthorized() -> AuthResponse {
    AuthResponse { status: 401, challenge: true }
}

/// Bad request: the upstream proxy did not inject a required header.
pub open spec fn bad_request() -> AuthResponse {
    AuthResponse { status: 400, challenge: false }
}

/// A decode failure aborts the handler as a server-side error.
pub open spec fn server_error() -> AuthResponse {
    AuthResponse { status: 500, challenge: false }
}

/// Authorized, with an empty body.
pub open spec fn ok_response() -> AuthResponse {
    AuthResponse { status: 200, challenge: false }
}

/// What the handler does once the header checks have run: answer at once,
/// or verify these credentials against this configuration.
pub enum HandlerStep {
    Respond(AuthResponse),
    Verify(Credentials, DirectoryConfig),
}

/// The early, pre-directory part of the handler's decision: absent or
/// non-Basic header answers unauthorized with the challenge; a header whose
/// payload does not decode aborts as a server error; a missing directory
/// header answers bad request; otherwise the directory phases follow.
pub open spec fn spec_early_response(
    header: Option<Seq<char>>,
    have_url: bool,
    have_base_dn: bool,
    have_bind_dn: bool,
    have_bind_pass: bool,
    have_template: bool,
) -> Option<AuthResponse> {
    if spec_validate(header) is Err {
        Some(unauthorized())
    } else if spec_userdata(header.unwrap()) is Err {
        Some(server_error())
    } else if !(have_url && have_base_dn && have_bind_dn && have_bind_pass && have_template) {
        Some(bad_request())
    } else {
        None
    }
}

/// The whole handler's decision as a function of the request alone: the
/// early response where one is owed, else the verdict of the two directory
/// phases, where the directory denying or being unreachable answers
/// unauthorized — deliberately the same status either way, so that the
/// caller cannot tell "user not found" from "wrong password".
pub open spec fn spec_response(
    header: Option<Seq<char>>,
    have_url: bool,
    have_base_dn: bool,
    have_bind_dn: bool,
    have_bind_pass: bool,
    have_template: bool,
    search: SearchOutcome,
    bind: BindOutcome,
) -> AuthResponse {
    match spec_early_response(
        header,
        have_url,
        have_base_dn,
        have_bind_dn,
        have_bind_pass,
        have_template,
    ) {
        Some(r) => r,
        None => match search {
            SearchOutcome::Failed => unauthorized(),
            SearchOutcome::Entries(entries) => if entries.len() == 0 {
                unauthorized()
            } else if bind == BindOutcome::Success {
                ok_response()
            } else {
                unauthorized()
            },
        },
    }
}

/// Runs the pre-directory part of the handler: validates the Basic header,
/// decodes the credentials and collects the directory configuration, in that
/// order; the first failure answers at once.
pub fn begin_auth_request(
    auth_header: Option<&str>,
    url: Option<String>,
    base_dn: Option<String>,
    bind_dn: Option<String>,
    bind_pass: Option<String>,
    template: Option<String>,
) -> (step: HandlerStep)
    ensures
        ({
            let h = match auth_header {
                Some(s) => Some(s@),
                None => None,
            };
            let early = spec_early_response(
                h,
                url is Some,
                base_dn is Some,
                bind_dn is Some,
                bind_pass is Some,
                template is Some,
            );
            match step {
                HandlerStep::Respond(r) => early == Some(r),
                HandlerStep::Verify(credentials, config) => {
                    &&& early is None
                    &&& spec_userdata(h.unwrap()) == Ok::<_, crate::auth::DecodeError>(
                        (credentials.username@, credentials.password@),
                    )
                    &&& url matches Some(u) && config.url == u
                    &&& base_dn matches Some(b) && config.base_dn == b
                    &&& bind_dn matches Some(d) && config.bind_dn == d
                    &&& bind_pass matches Some(p) && config.bind_pass == p
                    &&& template matches Some(t) && config.filter_template == t
                },
            }
        }),
{
    if validate_auth_header(auth_header).is_err() {
        return HandlerStep::Respond(AuthResponse { status: 401, challenge: true });
    }
    let header = match auth_header {
        Some(h) => h,
        None => {
            return HandlerStep::Respond(AuthResponse { status: 401, challenge: true });
        },
    };
    let credentials = match get_userdata_from_authorization(header) {
        Ok(c) => c,
        Err(_) => {
            return HandlerStep::Respond(AuthResponse { status: 500, challenge: false });
        },
    };
    let config = match get_ldap_options_from_headers(url, base_dn, bind_dn, bind_pass, template) {
        Ok(c) => c,
        Err(_) => {
            return HandlerStep::Respond(AuthResponse { status: 400, challenge: false });
        },
    };
    HandlerStep::Verify(credentials, config)
}

/// Turns the directory verdict into the HTTP answer: success authorizes,
/// and every verification failure answers unauthorized with the challenge.
pub fn finish_auth_request(verdict: &Result<(), VerifyFailure>) -> (r: AuthResponse)
    ensures
        verdict is Ok ==> r == ok_response(),
        verdict is Err ==> r == unauthorized(),
{
    match verdict {
        Ok(()) => AuthResponse { status: 200, challenge: false },
        Err(_) => AuthResponse { status: 401, challenge: true },
    }
}

/// The whole handler on one request, with the outcomes of the two directory
/// round-trips handed in: runs the early checks, then the search phase, and
/// the bind phase only where a bind is owed — an empty or failed search
/// never reaches it.
pub fn handle_auth_request(
    auth_header: Option<&str>,
    url: Option<String>,
    base_dn: Option<String>,
    bind_dn: Option<String>,
    bind_pass: Option<String>,
    template: Option<String>,
    search: SearchOutcome,
    bind: BindOutcome,
) -> (r: AuthResponse)
    ensures
        r == spec_response(
            match auth_header {
                Some(s) => Some(s@),
                None => None,
            },
            url is Some,
            base_dn is Some,
            bind_dn is Some,
            bind_pass is Some,
            template is Some,
            search,
            bind,
        ),
        auth_header is None ==> r == unauthorized(),
{
    let (credentials, config) = match begin_auth_request(
        auth_header,
        url,
        base_dn,
        bind_dn,
        bind_pass,
        template,
    ) {
        HandlerStep::Respond(r) => {
            return r;
        },
        HandlerStep::Verify(credentials, config) => (credentials, config),
    };
    let state = start_verification(&credentials, &config);
    let after_search = verify_step(state, VerifyEvent::SearchCompleted(search));
    let verdict = match after_search {
        VerifyState::Done { verdict } => verdict,
        VerifyState::Binding { request } => {
            let after_bind = verify_step(
                VerifyState::Binding { request },
                VerifyEvent::BindCompleted(bind),
            );
            match after_bind {
                VerifyState::Done { verdict } => verdict,
                _ => unreached(),
            }
        },
        VerifyState::Searching { query: _, password: _ } => unreached(),
    };
    finish_auth_request(&verdict)
}

/// Law: handling a request is idempotent. `handle_auth_request` pins every
/// response to `spec_response`, a function of the request's headers and the
/// directory's outcomes alone — the library keeps no state between requests —
/// so any two responses to the identical request against an unchanged
/// directory backend are identical.
pub proof fn lemma_idempotent(
    header: Option<Seq<char>>,
    have_url: bool,
    have_base_dn: bool,
    have_bind_dn: bool,
    have_bind_pass: bool,
    have_template: bool,
    search: SearchOutcome,
    bind: BindOutcome,
    first: AuthResponse,
    second: AuthResponse,
)
    requires
        first == spec_response(
            header,
            have_url,
            have_base_dn,
            have_bind_dn,
            have_bind_pass,
            have_template,
            search,
            bind,
        ),
        second == spec_response(
            header,
            have_url,
            have_base_dn,
            have_bind_dn,
            have_bind_pass,
            have_template,
            search,
            bind,
        ),
    ensures
        first == second,
{
}

} // verus!
