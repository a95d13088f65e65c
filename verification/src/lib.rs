//! A credential-verification library for a reverse proxy's auth subrequest:
//! it validates and decodes HTTP Basic `Authorization` headers, collects the
//! directory-service configuration from proxy-injected headers, and decides
//! the search-then-bind verification protocol and the final HTTP verdict.
pub mod auth;
pub mod config;
pub mod directory;
pub mod handler;
pub mod text;
