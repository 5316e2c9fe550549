//! The front-end's configuration, as the instance's configuration file
//! gives it.

use std::path::PathBuf;
use vstd::prelude::*;

use crate::provider::{names_distinct, ProviderCatalog, ProviderConfig};

verus! {

/// `std::path::PathBuf`, which the configuration carries and never looks into.
#[verifier::external_type_specification]
#[verifier::external_body]
pub struct ExPathBuf(PathBuf);

/// `PathBuf::clone`, which returns a copy of the path.
pub assume_specification[ <PathBuf as Clone>::clone ](path: &PathBuf) -> (copy: PathBuf)
    ensures
        copy == *path,
;

/// Whether the front-end is enabled where the configuration does not say.
pub fn enabled_def() -> (r: bool)
    ensures
        r,
{
    true
}

/// The base address of the application where the configuration gives none.
pub fn base_address_def() -> (r: String)
    ensures
        r@ == "/"@,
{
    "/".to_owned()
}

/// Represent a link entry.
#[derive(Debug, Clone, PartialEq)]
pub struct Link {
    /// The name of the related link.
    pub name: String,
    /// The target of the related link.
    pub href: String,
}

/// The asset configuration options struct.
#[derive(Debug, Clone, PartialEq)]
pub struct AssetsConfig {
    /// Assets directory path.
    pub path: PathBuf,
}

/// The templates configuration options struct.
#[derive(Debug, Clone, PartialEq)]
pub struct TemplatesConfig {
    /// Templates directory path.
    pub path: PathBuf,
}

/// The session-handling configuration struct.
#[derive(Clone, Debug, PartialEq)]
pub struct SessionsConfig {
    /// The name of the session's cookie.
    pub cookie_name: String,
    /// The secret to use to sign cookies with.
    pub secret: String,
}

/// The authentication configuration: the identity providers of the instance.
#[derive(Clone, Debug, PartialEq)]
pub struct AuthConfig {
    /// The providers, each under its name.
    pub providers: Vec<ProviderConfig>,
}

/// The frontend configuration struct.
#[derive(Debug, Clone, PartialEq)]
pub struct FrontendConfig {
    /// Is the frontend enabled?
    pub enabled: bool,
    /// The instance's title.
    pub title: Option<String>,
    /// The instance's description.
    pub description: Option<String>,
    /// The path to the instance's favicon.
    pub favicon: Option<String>,
    /// Some related links.
    pub links: Option<Vec<Link>>,
    /// Whether to disallow anonymous browsing of the registry.
    pub login_required: bool,
    /// Assets configuration options.
    pub assets: AssetsConfig,
    /// Templates configuration options.
    pub templates: TemplatesConfig,
    /// The session-handling configuration.
    pub sessions: SessionsConfig,
    /// The authentication configuration.
    pub auth: AuthConfig,
    /// Base address of app
    pub base_address: String,
}

impl AuthConfig {
    /// Builds the provider catalog of the instance. Returns `None` exactly
    /// when two providers share a name.
    pub fn into_catalog(self) -> (r: Option<ProviderCatalog>)
        ensures
            match r {
                Some(catalog) => catalog@ == self.providers@ && catalog.wf(),
                None => !names_distinct(self.providers@),
            },
    {
        ProviderCatalog::build(self.providers)
    }
}

} // verus!
