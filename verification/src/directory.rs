//! The search-then-bind verification protocol, as a state machine over the
//! two directory round-trips. The caller opens a fresh connection for each
//! phase, performs the action the current state asks for, and feeds the
//! outcome back; every decision between the round-trips is made here.
use crate::auth::Credentials;
use crate::config::DirectoryConfig;
use crate::text::{replace_all, replaced};
use vstd::prelude::*;

verus! {

/// The placeholder token in a filter template that the caller's username is
/// substituted for.
pub open spec fn placeholder() -> Seq<char> {
    "%(username)s"@
}

/// A typed verification failure. Both variants collapse to the same HTTP
/// status so that the caller cannot enumerate usernames.
#[derive(Clone, Copy, Debug, PartialEq, Eq)]
pub enum VerifyFailure {
    /// The search round-trip failed: connection, protocol or filter error.
    DirectoryUnavailable,
    /// The directory denied the request: no entry found, or the password
    /// was wrong.
    DirectoryDenied,
}

/// The subtree search the first phase must run: root `base_dn`, the filter
/// built from the template, no attributes requested.
pub struct SearchQuery {
    pub url: String,
    pub base_dn: String,
    pub filter: String,
}

/// The simple bind the second phase must attempt, as the located user with
/// the caller-supplied password.
pub struct BindRequest {
    pub url: String,
    pub user_dn: String,
    pub password: String,
}

/// What the search round-trip came back with: an error of the round-trip
/// itself, or the distinguished names of the matching entries.
pub enum SearchOutcome {
    /// Connection, protocol or filter failure of the search itself.
    Failed,
    /// The search ran; these are the DNs of the entries it returned.
    Entries(Vec<String>),
}

/// What the bind round-trip came back with.
#[derive(Clone, Copy, Debug, PartialEq, Eq)]
pub enum BindOutcome {
    /// The bind call failed at the transport level; a directory server
    /// commonly signals bad credentials this way.
    TransportError,
    /// The bind call ran but the directory's result code reports failure.
    ResultError,
    /// The bind succeeded at both transport and result level.
    Success,
}

/// Where the verification stands: which round-trip is owed next, or the
/// verdict.
pub enum VerifyState {
    /// The search phase is owed; `password` is kept for the bind phase.
    Searching { query: SearchQuery, password: String },
    /// The bind phase is owed.
    Binding { request: BindRequest },
    /// The protocol is over with this verdict.
    Done { verdict: Result<(), VerifyFailure> },
}

/// An outcome handed back by the caller after it ran the round-trip the
/// current state asked for.
pub enum VerifyEvent {
    SearchCompleted(SearchOutcome),
    BindCompleted(BindOutcome),
}

/// The transition relation of the protocol. A failed search makes the
/// directory unavailable; a search with no entries denies; otherwise the
/// bind phase follows as the first entry's DN with the kept password, and
/// only a fully successful bind authorizes. An event that does not belong
/// to the state changes nothing.
pub open spec fn spec_verify_step(state: VerifyState, event: VerifyEvent) -> VerifyState {
    match (state, event) {
        (
            VerifyState::Searching { query, password },
            VerifyEvent::SearchCompleted(outcome),
        ) => match outcome {
            SearchOutcome::Failed => VerifyState::Done {
                verdict: Err(VerifyFailure::DirectoryUnavailable),
            },
            SearchOutcome::Entries(entries) => if entries.len() == 0 {
                VerifyState::Done { verdict: Err(VerifyFailure::DirectoryDenied) }
            } else {
                VerifyState::Binding {
                    request: BindRequest { url: query.url, user_dn: entries[0], password },
                }
            },
        },
        (VerifyState::Binding { request }, VerifyEvent::BindCompleted(outcome)) => match outcome {
            BindOutcome::Success => VerifyState::Done { verdict: Ok(()) },
            BindOutcome::TransportError => VerifyState::Done {
                verdict: Err(VerifyFailure::DirectoryDenied),
            },
            BindOutcome::ResultError => VerifyState::Done {
                verdict: Err(VerifyFailure::DirectoryDenied),
            },
        },
        (s, _) => s,
    }
}

/// Starts a verification: the first state asks for a subtree search at the
/// configured base DN, with the username substituted into the filter
/// template, and keeps the password for the bind phase.
pub fn start_verification(credentials: &Credentials, config: &DirectoryConfig) -> (s: VerifyState)
    ensures
        s matches VerifyState::Searching { query, password } && {
            &&& query.url@ == config.url@
            &&& query.base_dn@ == config.base_dn@
            &&& query.filter@ == replaced(
                config.filter_template@,
                placeholder(),
                credentials.username@,
            )
            &&& password@ == credentials.password@
        },
{
    let filter = replace_all(
        config.filter_template.as_str(),
        "%(username)s",
        credentials.username.as_str(),
    );
    let query = SearchQuery {
        url: config.url.clone(),
        base_dn: config.base_dn.clone(),
        filter,
    };
    VerifyState::Searching { query, password: credentials.password.clone() }
}

/// Performs one transition of the protocol on the outcome the caller hands
/// back. The caller must answer a searching state with a search outcome and
/// a binding state with a bind outcome.
pub fn verify_step(state: VerifyState, event: VerifyEvent) -> (next: VerifyState)
    requires
        state is Searching || state is Binding,
        state is Searching ==> event is SearchCompleted,
        state is Binding ==> event is BindCompleted,
    ensures
        next == spec_verify_step(state, event),
{
    match (state, event) {
        (VerifyState::Searching { query, password }, VerifyEvent::SearchCompleted(outcome)) => {
            match outcome {
                SearchOutcome::Failed => VerifyState::Done {
                    verdict: Err(VerifyFailure::DirectoryUnavailable),
                },
                SearchOutcome::Entries(entries) => {
                    if entries.len() == 0 {
                        VerifyState::Done { verdict: Err(VerifyFailure::DirectoryDenied) }
                    } else {
                        let user_dn = entries[0].clone();
                        VerifyState::Binding {
                            request: BindRequest { url: query.url, user_dn, password },
                        }
                    }
                },
            }
        },
        (VerifyState::Binding { request: _ }, VerifyEvent::BindCompleted(outcome)) => {
            match outcome {
                BindOutcome::Success => VerifyState::Done { verdict: Ok(()) },
                BindOutcome::TransportError => VerifyState::Done {
                    verdict: Err(VerifyFailure::DirectoryDenied),
                },
                BindOutcome::ResultError => VerifyState::Done {
                    verdict: Err(VerifyFailure::DirectoryDenied),
                },
            }
        },
        (s, _) => s,
    }
}

/// Law: a search that yields zero entries denies the request outright. The
/// protocol moves straight to its verdict, so no bind phase is ever reached;
/// and even a bind outcome fed to the finished protocol leaves the "not
/// found" verdict standing.
pub proof fn lemma_denied_on_empty_search(
    state: VerifyState,
    entries: Vec<String>,
    bind_event: VerifyEvent,
)
    requires
        state is Searching,
        entries@.len() == 0,
    ensures
        spec_verify_step(
            state,
            VerifyEvent::SearchCompleted(SearchOutcome::Entries(entries)),
        ) == (VerifyState::Done { verdict: Err::<(), VerifyFailure>(VerifyFailure::DirectoryDenied) }),
        spec_verify_step(
            spec_verify_step(state, VerifyEvent::SearchCompleted(SearchOutcome::Entries(entries))),
            bind_event,
        ) == (VerifyState::Done { verdict: Err::<(), VerifyFailure>(VerifyFailure::DirectoryDenied) }),
{
}

/// Law: the verdict is authorized only when the search yielded at least one
/// entry and the following bind, as the first entry's DN with the kept
/// password, succeeded at both transport and result level.
pub proof fn lemma_authorized_needs_search_then_bind(
    state: VerifyState,
    search_event: VerifyEvent,
    bind_event: VerifyEvent,
)
    requires
        state is Searching,
        search_event is SearchCompleted,
        spec_verify_step(spec_verify_step(state, search_event), bind_event) == (VerifyState::Done {
            verdict: Ok::<(), VerifyFailure>(()),
        }),
    ensures
        search_event matches VerifyEvent::SearchCompleted(SearchOutcome::Entries(entries))
            && entries@.len() >= 1,
        bind_event == VerifyEvent::BindCompleted(BindOutcome::Success),
        state matches VerifyState::Searching { query, password } ==> spec_verify_step(
            state,
            search_event,
        ) matches VerifyState::Binding { request } && {
            &&& request.url == query.url
            &&& request.password == password
            &&& search_event matches VerifyEvent::SearchCompleted(SearchOutcome::Entries(entries))
                && request.user_dn == entries[0]
        },
{
}

} // verus!
