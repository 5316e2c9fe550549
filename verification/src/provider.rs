//! The table of identity providers that this instance is configured with.

use vstd::prelude::*;

verus! {

/// One OAuth2 identity provider, as configured. A `ProviderConfig` that the
/// catalog hands out is the client for that provider.
#[derive(Clone, Debug, PartialEq, Eq)]
pub struct ProviderConfig {
    /// The provider's name, the key of the catalog.
    pub name: String,
    /// The client identifier that the provider issued.
    pub client_id: String,
    /// The client secret that the provider issued.
    pub client_secret: String,
    /// The provider's authorization endpoint.
    pub auth_url: String,
    /// The provider's token endpoint.
    pub token_url: String,
    /// Where the provider sends the visitor back to.
    pub redirect_uri: String,
    /// The provider's endpoint that tells who the visitor is.
    pub userinfo_url: String,
    /// The scopes to ask for, so that the identity can be looked up.
    pub scopes: Vec<String>,
    /// Whether this instance allows logging in through the provider.
    pub enabled: bool,
}

/// Whether an entry of that name is among `entries`.
pub open spec fn is_configured(entries: Seq<ProviderConfig>, name: Seq<char>) -> bool {
    exists|i: int| 0 <= i < entries.len() && (#[trigger] entries[i]).name@ == name
}

/// The place of the entry of that name.
pub open spec fn position_of(entries: Seq<ProviderConfig>, name: Seq<char>) -> int {
    choose|i: int| 0 <= i < entries.len() && (#[trigger] entries[i]).name@ == name
}

/// No two entries share a name.
pub open spec fn names_distinct(entries: Seq<ProviderConfig>) -> bool {
    forall|i: int, j: int|
        0 <= i < j < entries.len() ==> (#[trigger] entries[i]).name@ != (
        #[trigger] entries[j]).name@
}

/// The client for the provider of that name: the entry of that name, where
/// there is one and it is enabled.
pub open spec fn client_for(entries: Seq<ProviderConfig>, name: Seq<char>) -> Option<
    ProviderConfig,
> {
    if is_configured(entries, name) && entries[position_of(entries, name)].enabled {
        Some(entries[position_of(entries, name)])
    } else {
        None
    }
}

/// A provider that is disabled or not configured yields no client: whatever
/// `client_for` hands out is an enabled entry of the table, under the name
/// that was asked for.
pub proof fn lemma_client_is_enabled_entry(entries: Seq<ProviderConfig>, name: Seq<char>)
    ensures
        client_for(entries, name) matches Some(client) ==> client.enabled && client.name@ == name
            && entries.contains(client),
        !is_configured(entries, name) ==> client_for(entries, name) is None,
        names_distinct(entries) ==> forall|i: int|
            0 <= i < entries.len() && (#[trigger] entries[i]).name@ == name && !entries[i].enabled
                ==> client_for(entries, name) is None,
{
}

/// The providers of this instance, keyed by name. Never changed once built.
#[derive(Debug, PartialEq, Eq)]
pub struct ProviderCatalog {
    providers: Vec<ProviderConfig>,
}

impl View for ProviderCatalog {
    type V = Seq<ProviderConfig>;

    closed spec fn view(&self) -> Seq<ProviderConfig> {
        self.providers@
    }
}

impl ProviderCatalog {
    /// The invariant of the type: no two entries share a name.
    #[verifier::type_invariant]
    pub open spec fn wf(&self) -> bool {
        names_distinct(self@)
    }

    /// The place of the entry named `name` among `entries`.
    fn find(entries: &Vec<ProviderConfig>, name: &String) -> (r: Option<usize>)
        ensures
            match r {
                Some(i) => i < entries@.len() && entries@[i as int].name@ == name@,
                None => !is_configured(entries@, name@),
            },
    {
        let mut i: usize = 0;
        while i < entries.len()
            invariant
                i <= entries.len(),
                forall|j: int| 0 <= j < i ==> (#[trigger] entries@[j]).name@ != name@,
            decreases entries.len() - i,
        {
            if entries[i].name == *name {
                return Some(i);
            }
            i = i + 1;
        }
        None
    }

    /// Builds the catalog from the configured providers, in their order.
    /// Returns `None` exactly when two of them share a name.
    pub fn build(configs: Vec<ProviderConfig>) -> (r: Option<ProviderCatalog>)
        ensures
            match r {
                Some(catalog) => catalog@ == configs@ && catalog.wf(),
                None => !names_distinct(configs@),
            },
    {
        let mut j: usize = 0;
        while j < configs.len()
            invariant
                j <= configs.len(),
                names_distinct(configs@.take(j as int)),
            decreases configs.len() - j,
        {
            let mut i: usize = 0;
            while i < j
                invariant
                    i <= j < configs.len(),
                    forall|k: int| 0 <= k < i ==> (#[trigger] configs@[k]).name@ != configs@[j as int].name@,
                decreases j - i,
            {
                if configs[i].name == configs[j].name {
                    return None;
                }
                i = i + 1;
            }
            j = j + 1;
        }
        assert(configs@.take(j as int) =~= configs@);
        Some(ProviderCatalog { providers: configs })
    }

    /// The number of configured providers, enabled or not.
    pub fn len(&self) -> (n: usize)
        ensures
            n == self@.len(),
    {
        self.providers.len()
    }

    /// The client for the provider named `provider_name`. Returns `None`
    /// where no provider of that name is configured and where the one that is
    /// has been disabled.
    pub fn lookup(&self, provider_name: &String) -> (r: Option<&ProviderConfig>)
        ensures
            self.wf(),
            match r {
                Some(client) => client_for(self@, provider_name@) == Some(*client),
                None => client_for(self@, provider_name@) is None,
            },
            r matches Some(client) ==> client.enabled && client.name@ == provider_name@,
    {
        proof {
            use_type_invariant(self);
        }
        match Self::find(&self.providers, provider_name) {
            Some(i) => {
                if self.providers[i].enabled {
                    Some(&self.providers[i])
                } else {
                    None
                }
            },
            None => None,
        }
    }
}

} // verus!
