//! Authentication core of a package registry's web front-end: the table of
//! configured OAuth2 providers, the authorization-code redirect flow with its
//! session-bound CSRF state token, and the linking of a verified external
//! identity to a local account.

pub mod session;
pub mod linker;
pub mod provider;
pub mod oauth;
pub mod flow;
pub mod gate;
pub mod routes;
pub mod config;
